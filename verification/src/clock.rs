//! The system clock.
use vstd::prelude::*;

verus! {

#[verifier::external_type_specification]
#[verifier::external_body]
pub struct ExSystemTime(std::time::SystemTime);

/// `std::time::SystemTime::now`: the clock's current reading. Nothing is known
/// of it.
#[verifier::external_body]
pub fn clock_now() -> (t: std::time::SystemTime) {
    std::time::SystemTime::now()
}

/// `SystemTime::duration_since(UNIX_EPOCH)`: the time since the epoch; for a
/// reading before the epoch, the text of the `SystemTimeError`. Nothing is
/// known of the value, which rests on the reading.
#[verifier::external_body]
pub fn since_epoch(t: &std::time::SystemTime) -> (r: Result<std::time::Duration, String>) {
    t.duration_since(std::time::UNIX_EPOCH).map_err(|e| e.to_string())
}

/// `Duration::as_secs`: the whole seconds of a duration.
#[verifier::external_body]
pub fn whole_seconds(d: &std::time::Duration) -> (r: u64) {
    d.as_secs()
}

} // verus!
