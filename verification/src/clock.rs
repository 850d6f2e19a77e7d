//! The synchronized clock: an authoritative wall-clock reading anchored to a
//! local monotonic reading taken at acquisition time. "Now" is always
//! re-derived from the anchor pair, never from accumulated sleep durations.

use vstd::prelude::*;
use chrono::TimeZone;

verus! {

/// Upper bound on every millisecond reading the library works with
/// (roughly two thousand years past the epoch). It keeps all clock and
/// deadline arithmetic far away from `u64` overflow.
pub const MAX_TIME_MS: u64 = 0x4000_0000_0000;

/// What the authoritative zone's wall clock reads, in seconds, at a given
/// Unix instant. Only the timezone database can compute it; the trusted
/// conversion below names its result.
pub uninterp spec fn shanghai_local_secs_of(utc_secs: i64) -> int;

/// Relies on chrono's `Utc.timestamp_opt` and chrono-tz's `Asia::Shanghai`
/// zone conversion: the local wall-clock reading is a function of the UTC
/// second count alone, and every admitted second count converts. The bound
/// keeps the call away from chrono's own maximum date, where adding the
/// zone offset inside `naive_local` would overflow and panic.
#[verifier::external_body]
fn utc_to_shanghai_local_secs(utc_secs: i64) -> (r: Option<i64>)
    requires
        0 <= utc_secs <= 253_402_300_799,
    ensures
        r matches Some(v) ==> v == shanghai_local_secs_of(utc_secs),
        r is Some,
{
    match chrono::Utc.timestamp_opt(utc_secs, 0).single() {
        Some(dt) => Some(
            dt.with_timezone(&chrono_tz::Asia::Shanghai).naive_local().and_utc().timestamp(),
        ),
        None => None,
    }
}

/// An authoritative timestamp (milliseconds of local wall-clock time in the
/// authoritative zone) paired with the local monotonic reading taken at the
/// moment of acquisition. Immutable once created; lives for one run.
#[derive(Clone, Copy, Debug, PartialEq, Eq)]
pub struct SyncedClock {
    pub anchor_ms: u64,
    pub anchor_mono_ms: u64,
}

impl SyncedClock {
    /// Both anchor readings are in the range the library's arithmetic covers.
    pub open spec fn wf(self) -> bool {
        self.anchor_ms < MAX_TIME_MS && self.anchor_mono_ms < MAX_TIME_MS
    }

    /// The clock invariant: current authoritative time is the anchor instant
    /// plus however much monotonic time has passed since acquisition.
    pub open spec fn spec_now_ms(self, mono_now_ms: u64) -> int {
        self.anchor_ms + (mono_now_ms - self.anchor_mono_ms)
    }

    /// Re-derive the authoritative "now" from the anchor pair.
    pub fn now_ms(&self, mono_now_ms: u64) -> (r: u64)
        requires
            self.wf(),
            self.anchor_mono_ms <= mono_now_ms,
            mono_now_ms < MAX_TIME_MS,
        ensures
            r == self.spec_now_ms(mono_now_ms),
            r < 2 * MAX_TIME_MS,
    {
        self.anchor_ms + (mono_now_ms - self.anchor_mono_ms)
    }
}

/// Build a synchronized clock from a time server's answer (Unix seconds) and
/// the monotonic reading taken just before the exchange. An answer outside
/// the range the conversion admits, or whose local reading falls outside
/// the range the library's arithmetic covers, yields `None`.
pub fn clock_from_ntp(ntp_unix_secs: i64, mono_ms: u64) -> (r: Option<SyncedClock>)
    requires
        mono_ms < MAX_TIME_MS,
    ensures
        r matches Some(c) ==> c.wf() && c.anchor_mono_ms == mono_ms && c.anchor_ms
            == 1000 * shanghai_local_secs_of(ntp_unix_secs),
        0 <= ntp_unix_secs <= 253_402_300_799 && 0 <= shanghai_local_secs_of(ntp_unix_secs)
            && 1000 * shanghai_local_secs_of(ntp_unix_secs) < MAX_TIME_MS ==> r is Some,
{
    if ntp_unix_secs < 0 || ntp_unix_secs > 253_402_300_799 {
        return None;
    }
    match utc_to_shanghai_local_secs(ntp_unix_secs) {
        Some(local_secs) => {
            if 0 <= local_secs && local_secs <= ((MAX_TIME_MS - 1) / 1000) as i64 {
                Some(SyncedClock { anchor_ms: (local_secs as u64) * 1000, anchor_mono_ms: mono_ms })
            } else {
                None
            }
        },
        None => None,
    }
}

} // verus!
