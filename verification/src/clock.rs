//! The wall clock.

use vstd::prelude::*;

verus! {

/// `chrono::Utc::now` and `DateTime::timestamp`: the seconds since the Unix
/// epoch as the machine's clock has them. Nothing is claimed of the value.
/// `chrono` panics where the machine's clock stands before the epoch, so
/// no such reading comes from here; the forms that take the reading as an
/// argument provide for every reading all the same.
#[verifier::external_body]
pub(crate) fn unix_now() -> i64 {
    chrono::Utc::now().timestamp()
}

} // verus!
