//! The wall clock, in milliseconds.

use vstd::prelude::*;

verus! {

/// A reading of the system clock.
#[verifier::external_type_specification]
#[verifier::external_body]
pub struct ExSystemTime(std::time::SystemTime);

/// A system clock reading earlier than the reference it was measured from.
#[verifier::external_type_specification]
#[verifier::external_body]
pub struct ExSystemTimeError(std::time::SystemTimeError);

/// `SystemTime::now`. Nothing is stated of the reading, which depends on
/// the machine and the moment of the call.
#[verifier::external_body]
fn system_now() -> std::time::SystemTime {
    std::time::SystemTime::now()
}

/// `SystemTime::duration_since` the Unix epoch: an error when the reading
/// is earlier than the epoch. Nothing is stated of the duration.
#[verifier::external_body]
fn since_unix_epoch(t: std::time::SystemTime) -> Result<std::time::Duration, std::time::SystemTimeError> {
    t.duration_since(std::time::UNIX_EPOCH)
}

/// `Duration::as_millis`: the whole milliseconds of `d`. Nothing is stated
/// of the value, which `Duration` keeps opaque here.
#[verifier::external_body]
fn duration_millis(d: std::time::Duration) -> u128 {
    d.as_millis()
}

/// Milliseconds since the Unix epoch on the system clock, truncated to 64
/// bits (0 if the clock reads earlier than the epoch).
pub(crate) fn clock_ms() -> (r: u64) {
    match since_unix_epoch(system_now()) {
        Ok(d) => {
            let ms = duration_millis(d);
            #[verifier::truncate]
            (ms as u64)
        },
        Err(_) => 0,
    }
}

} // verus!
