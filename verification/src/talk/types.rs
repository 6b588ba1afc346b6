//! A responder behind a function of the caller's choice.

use vstd::prelude::*;

verus! {

/// A conversation partner: a function from a line to its answer and to
/// whether the conversation is over.
pub struct Talk<F: Fn(&str) -> (String, bool)> {
    pub reply_fn: F,
}

impl<F: Fn(&str) -> (String, bool)> Talk<F> {
    /// A partner that answers with `reply_fn`.
    pub fn new(reply_fn: F) -> (talk: Self)
        ensures
            talk.reply_fn == reply_fn,
    {
        Talk { reply_fn }
    }

    /// Answers `input` with the function that the partner was made with: what
    /// comes back is a result of that function on `input`.
    pub fn reply(&self, input: &str) -> (out: (String, bool))
        requires
            call_requires(self.reply_fn, (input,)),
        ensures
            call_ensures(self.reply_fn, (input,), out),
    {
        (self.reply_fn)(input)
    }
}

} // verus!
