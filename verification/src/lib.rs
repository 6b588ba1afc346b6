//! A small streaming service core: background jobs that fan out to workers and
//! stream growing snapshots to one consumer, and a pattern-matching chat
//! responder.

pub mod chance;
pub mod envelope;
pub mod ident;
pub mod job;
pub mod pattern;
pub mod service;
pub mod talk;
pub mod text;
pub mod utils;
