//! Time sources. The engine counts in nanoseconds of a monotonic clock; the
//! session record and the recovery snapshot carry RFC 3339 wall-clock text.

use std::time::Instant;
use vstd::prelude::*;

verus! {

pub const NANOS_PER_SECOND: u64 = 1_000_000_000;

pub const NANOS_PER_MILLI: u64 = 1_000_000;

#[verifier::external_type_specification]
#[verifier::external_body]
pub struct ExInstant(Instant);

/// Relies on std's `Instant::now`: a reading of the monotonic clock.
#[verifier::external_body]
fn instant_now() -> Instant {
    Instant::now()
}

/// Relies on std's `Instant::elapsed`: the time since `origin`, in nanoseconds.
#[verifier::external_body]
fn nanos_since(origin: &Instant) -> u64 {
    origin.elapsed().as_nanos() as u64
}

/// A monotonic clock that reads nanoseconds since its own creation.
pub struct MonotonicClock {
    origin: Instant,
}

impl MonotonicClock {
    pub fn new() -> Self {
        MonotonicClock { origin: instant_now() }
    }

    /// Nanoseconds since this clock was created.
    pub fn now(&self) -> u64 {
        nanos_since(&self.origin)
    }
}

/// Relies on chrono's `Utc::now` and `DateTime::to_rfc3339`: the current wall-clock time as
/// RFC 3339 text.
#[verifier::external_body]
pub(crate) fn now_rfc3339() -> String {
    chrono::Utc::now().to_rfc3339()
}

/// The instant an RFC 3339 text denotes, as whole seconds since the Unix epoch and the
/// nanosecond within that second; `None` when the text is not RFC 3339.
pub uninterp spec fn rfc3339_instant(s: Seq<char>) -> Option<(i64, u32)>;

/// Relies on chrono's `DateTime::parse_from_rfc3339`, read back through `timestamp` and
/// `timestamp_subsec_nanos`.
#[verifier::external_body]
fn parse_rfc3339(value: &str) -> (r: Option<(i64, u32)>)
    ensures
        r == rfc3339_instant(value@),
{
    chrono::DateTime::parse_from_rfc3339(value).ok().map(|dt| (dt.timestamp(), dt.timestamp_subsec_nanos()))
}

/// Nanoseconds from instant `a` to instant `b` (negative when `b` is earlier).
pub open spec fn nanos_between(a: (i64, u32), b: (i64, u32)) -> int {
    (b.0 - a.0) * 1_000_000_000 + (b.1 - a.1)
}

/// Whole seconds from `a` to `b`: zero when `b` is not at least one second later, and at
/// most `u32::MAX`.
pub open spec fn seconds_between(a: (i64, u32), b: (i64, u32)) -> u32 {
    let d = nanos_between(a, b);
    if d < 1_000_000_000 {
        0
    } else if d / 1_000_000_000 > u32::MAX {
        u32::MAX
    } else {
        (d / 1_000_000_000) as u32
    }
}

/// Whole seconds between two parsed instants, clamped to the range of `u32`.
pub fn whole_seconds_between(a: (i64, u32), b: (i64, u32)) -> (r: u32)
    ensures
        r == seconds_between(a, b),
{
    let d: i128 = (b.0 as i128 - a.0 as i128) * 1_000_000_000 + (b.1 as i128 - a.1 as i128);
    if d < 1_000_000_000 {
        0
    } else if d / 1_000_000_000 > u32::MAX as i128 {
        u32::MAX
    } else {
        (d / 1_000_000_000) as u32
    }
}

/// Whole seconds from the RFC 3339 instant `start` to `end`; `None` when either text does
/// not parse.
pub fn duration_seconds_between(start: &str, end: &str) -> (r: Option<u32>)
    ensures
        r == (match (rfc3339_instant(start@), rfc3339_instant(end@)) {
            (Some(a), Some(b)) => Some(seconds_between(a, b)),
            _ => None,
        }),
{
    let a = parse_rfc3339(start);
    let b = parse_rfc3339(end);
    match (a, b) {
        (Some(a), Some(b)) => Some(whole_seconds_between(a, b)),
        _ => None,
    }
}

/// Whether RFC 3339 text `value` denotes an instant in `[from, to]`; `None` when any of the
/// three does not parse.
pub fn rfc3339_within(value: &str, from: &str, to: &str) -> (r: Option<bool>)
    ensures
        r == (match (rfc3339_instant(value@), rfc3339_instant(from@), rfc3339_instant(to@)) {
            (Some(v), Some(f), Some(t)) => Some(nanos_between(f, v) >= 0 && nanos_between(v, t) >= 0),
            _ => None,
        }),
{
    let f = parse_rfc3339(from);
    let t = parse_rfc3339(to);
    let v = parse_rfc3339(value);
    match (v, f, t) {
        (Some(v), Some(f), Some(t)) => {
            let after_start: i128 = (v.0 as i128 - f.0 as i128) * 1_000_000_000 + (v.1 as i128 - f.1 as i128);
            let before_end: i128 = (t.0 as i128 - v.0 as i128) * 1_000_000_000 + (t.1 as i128 - v.1 as i128);
            Some(after_start >= 0 && before_end >= 0)
        },
        _ => None,
    }
}

} // verus!
