//! Clocks: where the timestamps on files and links come from.

use std::time::UNIX_EPOCH;
use vstd::prelude::*;

verus! {

/// A source of wall-clock timestamps, in milliseconds since the Unix epoch.
pub trait TimeProvider {
    /// The instant that the clock is pinned to, for a clock that is.
    spec fn pinned(&self) -> Option<i64>;

    fn unix_ts_ms(&self) -> (now: i64)
        ensures
            self.pinned() matches Some(at) ==> now == at,
    ;
}

/// Milliseconds from whole seconds and the milliseconds of the started second.
pub open spec fn millis(secs: int, subsec_millis: int) -> int {
    secs * 1000 + subsec_millis
}

/// The timestamp of an instant that lies `secs` seconds and `subsec_millis`
/// milliseconds after the epoch (`after`) or before it: the number of
/// milliseconds, negative before the epoch, held to the range of `i64`.
pub open spec fn timestamp_spec(after: bool, secs: u64, subsec_millis: u32) -> int {
    let distance = millis(secs as int, subsec_millis as int);
    if after {
        if distance > i64::MAX {
            i64::MAX as int
        } else {
            distance
        }
    } else {
        if -distance < i64::MIN {
            i64::MIN as int
        } else {
            -distance
        }
    }
}

/// Computes `timestamp_spec`.
pub fn timestamp(after: bool, secs: u64, subsec_millis: u32) -> (ts: i64)
    ensures
        ts == timestamp_spec(after, secs, subsec_millis),
{
    let distance: u128 = secs as u128 * 1000 + subsec_millis as u128;
    if after {
        if distance > 0x7fff_ffff_ffff_ffffu128 {
            i64::MAX
        } else {
            distance as i64
        }
    } else {
        if distance >= 0x8000_0000_0000_0000u128 {
            i64::MIN
        } else {
            -(distance as i64)
        }
    }
}

/// `SystemTime::elapsed` on `UNIX_EPOCH`: how far the system clock is from
/// the epoch, as whole seconds and the milliseconds of the started second,
/// `Ok` when the clock is at or after the epoch and `Err` when it is
/// before. Nothing is known of a clock reading.
#[verifier::external_body]
fn epoch_distance() -> Result<(u64, u32), (u64, u32)> {
    match UNIX_EPOCH.elapsed() {
        Ok(since) => Ok((since.as_secs(), since.subsec_millis())),
        Err(before) => Err((before.duration().as_secs(), before.duration().subsec_millis())),
    }
}

/// The system's clock.
#[derive(Debug, Clone, Copy)]
pub struct SystemTimeProvider {
}

impl TimeProvider for SystemTimeProvider {
    open spec fn pinned(&self) -> Option<i64> {
        None
    }

    fn unix_ts_ms(&self) -> (now: i64) {
        match epoch_distance() {
            Ok((secs, subsec_millis)) => timestamp(true, secs, subsec_millis),
            Err((secs, subsec_millis)) => timestamp(false, secs, subsec_millis),
        }
    }
}

/// A clock that always reports the instant it was set to.
#[derive(Debug, Clone, Copy)]
pub struct FixedTimeProvider {
    pub fixed_unix_ts_ms: i64,
}

impl FixedTimeProvider {
    /// Moves the clock to `new_unix_ts_ms`.
    pub fn set_fixed_unix_ts_ms(&mut self, new_unix_ts_ms: i64)
        ensures
            final(self).fixed_unix_ts_ms == new_unix_ts_ms,
    {
        self.fixed_unix_ts_ms = new_unix_ts_ms;
    }
}

impl TimeProvider for FixedTimeProvider {
    open spec fn pinned(&self) -> Option<i64> {
        Some(self.fixed_unix_ts_ms)
    }

    fn unix_ts_ms(&self) -> (now: i64) {
        self.fixed_unix_ts_ms
    }
}

} // verus!
