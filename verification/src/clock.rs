//! The current instant. Every operation of the service takes one instant and
//! treats it as a single logical moment; these helpers read it once, at the
//! operation's entry point.

use vstd::prelude::*;

verus! {

/// Relies on chrono::Utc::now, read through DateTime::timestamp_millis: the
/// number of non-leap milliseconds since the Unix epoch by the system clock.
/// Nothing is promised of the value: the clock is the environment's.
#[verifier::external_body]
pub(crate) fn now_millis() -> u64 {
    chrono::Utc::now().timestamp_millis() as u64
}

} // verus!
