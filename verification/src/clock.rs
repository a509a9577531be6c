//! Wall-clock access.
use vstd::prelude::*;

verus! {

/// Microseconds since the UNIX epoch, read from `std::time::SystemTime::now`;
/// a clock set before the epoch reads as 0. Nothing is stated of the value:
/// it depends on the time of the call.
#[verifier::external_body]
pub fn unix_time_micros() -> u64 {
    match std::time::SystemTime::now().duration_since(std::time::UNIX_EPOCH) {
        Ok(d) => d.as_micros() as u64,
        Err(_) => 0,
    }
}

} // verus!
