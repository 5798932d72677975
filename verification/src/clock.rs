//! The time of day, which the `chrono` crate reads.

use vstd::prelude::*;

verus! {

/// The seconds since the start of 1970, as `chrono::Utc::now` and
/// `DateTime::timestamp` give them. Nothing is promised of the number: two
/// calls may give any two values. Where the machine's clock stands before
/// 1970, `chrono::Utc::now` does not return.
#[verifier::external_body]
pub(crate) fn unix_now() -> i64 {
    chrono::Utc::now().timestamp()
}

} // verus!
