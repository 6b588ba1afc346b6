//! Fresh identifiers.

use vstd::prelude::*;

verus! {

/// The length of an identifier in its hyphenated form.
pub const ID_LENGTH: usize = 36;

/// Makes a random identifier with `uuid::Uuid::new_v4` and writes it out with
/// its `to_string`. Trusted: the text is the hyphenated form, which is always
/// 36 characters long. Which characters they are depends on chance, so
/// nothing is claimed of them. The call fails only where the operating system
/// has no random bytes to give.
#[verifier::external_body]
pub(crate) fn fresh_id() -> (id: String)
    ensures
        id@.len() == ID_LENGTH,
{
    uuid::Uuid::new_v4().to_string()
}

} // verus!
