//! The wall clock.

use std::time::SystemTime;
use vstd::prelude::*;

verus! {

/// `std::time::SystemTime`, a point in time. Nothing is seen of what is in
/// it; two of them are told apart by equality alone.
#[verifier::external_type_specification]
#[verifier::external_body]
pub struct ExSystemTime(SystemTime);

/// `SystemTime` is `Copy`: its clone is the same point in time.
pub assume_specification[ <SystemTime as Clone>::clone ](time: &SystemTime) -> (out: SystemTime)
    ensures
        out == *time,
;

/// Reads the wall clock with `SystemTime::now`. Nothing is known of the
/// point in time that comes back.
#[verifier::external_body]
pub(crate) fn now() -> SystemTime {
    SystemTime::now()
}

} // verus!
