//! Random choices, drawn from the generator of the running thread. The
//! generator fails only where the operating system has no random bytes to
//! seed it with.

use rand::seq::IndexedRandom;
use rand::Rng;
use vstd::prelude::*;

verus! {

/// Draws a number with `rand::Rng::random_range` on `rand::rng()`, over the
/// range `low..=high`. Trusted: the number lies in that range. The call
/// panics on an empty range, which `low <= high` rules out.
#[verifier::external_body]
pub(crate) fn random_between(low: usize, high: usize) -> (n: usize)
    requires
        low <= high,
    ensures
        low <= n <= high,
{
    rand::rng().random_range(low..=high)
}

/// Picks one entry of `list` with `rand::seq::IndexedRandom::choose` on
/// `rand::rng()`. Trusted: nothing is picked exactly from an empty list, and
/// what is picked stands somewhere in the list.
#[verifier::external_body]
pub(crate) fn pick_one(list: &[&'static str]) -> (picked: Option<&'static str>)
    ensures
        picked is None <==> list@.len() == 0,
        picked matches Some(s) ==> exists|i: int| 0 <= i < list@.len() && list@[i]@ == s@,
{
    list.choose(&mut rand::rng()).copied()
}

} // verus!
