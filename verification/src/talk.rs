//! A responder that answers a line of conversation by the first of its rules
//! that matches.

pub mod globals;
pub mod talk;
pub mod types;

pub use talk::{get_intro_responses, reply};
pub use types::Talk;
