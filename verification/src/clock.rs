//! The wall clock, as far as the protocol reads it.

use std::time::{Duration, SystemTime, SystemTimeError};
use vstd::prelude::*;

verus! {

/// `std::time::SystemTime`, carried as an opaque value.
#[verifier::external_type_specification]
#[verifier::external_body]
pub struct ExSystemTime(SystemTime);

/// `std::time::SystemTimeError`, carried as an opaque value.
#[verifier::external_type_specification]
#[verifier::external_body]
pub struct ExSystemTimeError(SystemTimeError);

/// `SystemTime::now`: some instant; nothing is known of it.
pub assume_specification[ SystemTime::now ]() -> SystemTime;

/// `SystemTime::duration_since`: a span or an error; nothing is known of
/// either.
pub assume_specification[ SystemTime::duration_since ](
    later: &SystemTime,
    earlier: SystemTime,
) -> Result<Duration, SystemTimeError>;

/// `Duration::as_millis`: some number; nothing is known of it.
pub assume_specification[ Duration::as_millis ](span: &Duration) -> u128;

/// `std::time::UNIX_EPOCH`, the instant that timestamps count from.
#[verifier::external_body]
fn unix_epoch() -> SystemTime {
    std::time::UNIX_EPOCH
}

/// Milliseconds that the system clock counts since the Unix epoch, cut to 64
/// bits; 0 while the clock is set to an instant before the epoch.
pub(crate) fn unix_millis() -> u64 {
    match SystemTime::now().duration_since(unix_epoch()) {
        Ok(elapsed) => timestamp_of(Some(elapsed.as_millis())),
        Err(_) => timestamp_of(None),
    }
}

/// The timestamp that a reading of the clock stands for: the milliseconds
/// since the Unix epoch, cut to their low 64 bits; 0 where there is no
/// reading, because the clock is set to an instant before the epoch.
pub open spec fn stamp_of(elapsed_ms: Option<u128>) -> u64 {
    match elapsed_ms {
        Some(millis) => (millis % 0x1_0000_0000_0000_0000) as u64,
        None => 0,
    }
}

/// Turns a reading of the clock into a timestamp.
pub fn timestamp_of(elapsed_ms: Option<u128>) -> (stamp: u64)
    ensures
        stamp == stamp_of(elapsed_ms),
{
    match elapsed_ms {
        Some(millis) => {
            let low: u128 = millis & 0xffff_ffff_ffff_ffff;
            assert(low == millis % 0x1_0000_0000_0000_0000) by (bit_vector)
                requires
                    low == millis & 0xffff_ffff_ffff_ffff,
            ;
            low as u64
        },
        None => 0,
    }
}

} // verus!
