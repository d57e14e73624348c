//! What the store takes from the machine it runs on: randomness for
//! identifiers and the current time. Neither call is verified, and nothing
//! is assumed about what it returns.

use crate::model::Timestamp;
use vstd::prelude::*;

verus! {

/// Calls `uuid::Uuid::new_v4` and returns the UUID as the 128-bit number
/// that `uuid::Uuid::as_u128` reads from it. The value comes from the
/// operating system's random number generator, so nothing is claimed of
/// it; the call panics if that generator cannot be read.
#[verifier::external_body]
pub(crate) fn random_uuid() -> u128 {
    uuid::Uuid::new_v4().as_u128()
}

/// Calls `chrono::Local::now` and returns what the `DateTime` holds: its
/// `timestamp`, its `timestamp_subsec_nanos`, and the `local_minus_utc` of
/// its offset. Nothing is claimed of the value; the call panics where
/// chrono does, when the system clock reads a time before the Unix epoch
/// or the local offset cannot be worked out.
#[verifier::external_body]
pub(crate) fn local_now() -> Timestamp {
    let now = chrono::Local::now();
    Timestamp {
        seconds: now.timestamp(),
        nanos: now.timestamp_subsec_nanos(),
        utc_offset: now.offset().local_minus_utc(),
    }
}

} // verus!
