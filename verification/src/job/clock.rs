//! Reading the wall clock.

use super::snapshot::Timestamp;
use vstd::prelude::*;

verus! {

impl Timestamp {
    /// The nanoseconds stay below one second.
    pub open spec fn normal(self) -> bool {
        0 <= self.nanos < 1_000_000_000
    }
}

/// Reads the system clock with `std::time::SystemTime::now` and converts the
/// reading with `prost_types::Timestamp::from`. Trusted: of every reading,
/// only that the conversion leaves the nanoseconds in `0..1_000_000_000`.
/// Nothing is claimed about how two readings compare: the system clock may
/// be set back.
#[verifier::external_body]
pub(crate) fn now() -> (t: Timestamp)
    ensures
        t.normal(),
{
    let reading = prost_types::Timestamp::from(std::time::SystemTime::now());
    Timestamp { seconds: reading.seconds, nanos: reading.nanos }
}

} // verus!
