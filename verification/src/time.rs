//! The clock that stamps log entries.

use std::time::{Duration, SystemTime, SystemTimeError};
use vstd::prelude::*;

verus! {

#[verifier::external_type_specification]
#[verifier::external_body]
pub struct ExSystemTime(SystemTime);

#[verifier::external_type_specification]
#[verifier::external_body]
pub struct ExSystemTimeError(SystemTimeError);

/// `SystemTime::now` reads the system clock. Nothing is claimed of the reading.
pub assume_specification[ SystemTime::now ]() -> SystemTime;

/// `SystemTime::duration_since` measures the time from `earlier` to `t`, and
/// fails where `earlier` is the later of the two. Nothing is claimed of the
/// result.
pub assume_specification[ SystemTime::duration_since ](
    t: &SystemTime,
    earlier: SystemTime,
) -> Result<Duration, SystemTimeError>;

/// `Duration::as_millis` gives a duration in whole milliseconds. Nothing is
/// claimed of the number.
pub assume_specification[ Duration::as_millis ](d: &Duration) -> u128;

/// The constant `SystemTime::UNIX_EPOCH`: the start of 1970 in UTC.
#[verifier::external_body]
fn unix_epoch() -> SystemTime {
    SystemTime::UNIX_EPOCH
}

/// The timestamp for a clock reading: the milliseconds since the epoch, cut
/// to 64 bits, or zero where the clock stood before the epoch.
pub open spec fn spec_timestamp(since_epoch: Option<u128>) -> u64 {
    match since_epoch {
        Some(n) => (n % 0x1_0000_0000_0000_0000) as u64,
        None => 0,
    }
}

/// The timestamp for a clock reading: `since_epoch` holds the milliseconds
/// that have passed since the epoch, or nothing where the clock stood before
/// it.
pub fn timestamp(since_epoch: Option<u128>) -> (r: u64)
    ensures
        r == spec_timestamp(since_epoch),
{
    match since_epoch {
        Some(n) => {
            assert((n & 0xffff_ffff_ffff_ffff) == n % 0x1_0000_0000_0000_0000) by (bit_vector);
            assert((n & 0xffff_ffff_ffff_ffff) <= 0xffff_ffff_ffff_ffff) by (bit_vector);
            (n & 0xffff_ffff_ffff_ffff) as u64
        },
        None => 0,
    }
}

/// The current time in UTC, as whole milliseconds since the epoch. The value
/// is whatever the system clock says: zero where it stands before the epoch.
pub fn current_time_millis() -> u64 {
    let now: SystemTime = SystemTime::now();
    match now.duration_since(unix_epoch()) {
        Ok(d) => timestamp(Some(d.as_millis())),
        Err(_) => timestamp(None),
    }
}

} // verus!
