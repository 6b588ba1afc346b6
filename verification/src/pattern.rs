//! Regular expressions, as far as the responder needs them: one search of a
//! text for a pattern, and what the first group of the pattern caught.

use vstd::prelude::*;

verus! {

/// What a search of a text for a pattern found.
#[derive(Debug)]
pub enum Capture {
    /// The pattern is no regular expression.
    Invalid,
    /// The pattern matches nowhere in the text.
    NoMatch,
    /// The pattern matches; `group` is the text that its first group caught
    /// in the leftmost match, if the pattern has such a group and it took part.
    Match { group: Option<String> },
}

/// The mathematical content of a [`Capture`].
pub enum CaptureView {
    Invalid,
    NoMatch,
    Match { group: Option<Seq<char>> },
}

impl View for Capture {
    type V = CaptureView;

    open spec fn view(&self) -> CaptureView {
        match self {
            Capture::Invalid => CaptureView::Invalid,
            Capture::NoMatch => CaptureView::NoMatch,
            Capture::Match { group: Some(text) } => CaptureView::Match { group: Some(text@) },
            Capture::Match { group: None } => CaptureView::Match { group: None },
        }
    }
}

/// What the search of `text` for `pattern` finds: the outcome of compiling
/// the pattern and of the leftmost match of the compiled expression.
pub uninterp spec fn capture_of(pattern: Seq<char>, text: Seq<char>) -> CaptureView;

/// Compiles `pattern` with `regex::Regex::new`, searches `text` with
/// `regex::Regex::captures`, and copies what `regex::Captures::get(1)` holds.
/// Trusted: the outcome depends on the pattern and the text alone.
#[verifier::external_body]
pub(crate) fn search(pattern: &str, text: &str) -> (found: Capture)
    ensures
        found@ == capture_of(pattern@, text@),
{
    match regex::Regex::new(pattern) {
        Err(_) => Capture::Invalid,
        Ok(expression) => match expression.captures(text) {
            None => Capture::NoMatch,
            Some(groups) => Capture::Match {
                group: groups.get(1).map(|caught| caught.as_str().to_string()),
            },
        },
    }
}

} // verus!
