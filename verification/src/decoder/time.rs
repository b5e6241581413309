//! Time bases, durations and the wall clock.

use crate::sample::trunc_div;
use std::time::{Duration, SystemTime};
use vstd::prelude::*;

verus! {

/// The length of one timestamp tick in seconds, as a fraction.
#[derive(Clone, Copy, Debug, PartialEq, Eq, Structural)]
pub struct TimeBase {
    pub numer: u32,
    pub denom: u32,
}

impl TimeBase {
    /// Whether neither part of the fraction is zero.
    pub open spec fn valid(&self) -> bool {
        self.numer > 0 && self.denom > 0
    }
}

/// The nanoseconds that `ts` ticks of a time base come to, rounded toward
/// zero.
pub open spec fn ticks_as_nanos(tb: TimeBase, ts: int) -> int {
    trunc_div(ts * tb.numer as int * 1_000_000_000, tb.denom as int)
}

/// The milliseconds that `ts` ticks of a time base come to, rounded toward
/// zero twice: to the nanosecond and to the millisecond.
pub open spec fn ticks_as_millis(tb: TimeBase, ts: int) -> int {
    trunc_div(ticks_as_nanos(tb, ts), 1_000_000)
}

/// Whether `ts` ticks of a time base come to a number of seconds that fits a
/// signed 64-bit count.
pub open spec fn ticks_fit(tb: TimeBase, ts: int) -> bool {
    i64::MIN <= ticks_as_nanos(tb, ts) / 1_000_000_000 <= i64::MAX
}

/// The ticks of a time base that a time of `secs` seconds and `nanos`
/// nanoseconds comes to, the fraction of a second rounded down first.
pub open spec fn time_as_ticks(tb: TimeBase, secs: int, nanos: int) -> int {
    trunc_div(secs * tb.denom as int + (nanos * tb.denom as int) / 1_000_000_000, tb.numer as int)
}

/// The ticks that a position in milliseconds comes to stand for no later
/// position: going back to where playback stood never goes forward.
pub proof fn lemma_ticks_of_a_position_are_no_later(tb: TimeBase, millis: u64)
    requires
        tb.valid(),
    ensures
        0 <= time_as_ticks(tb, millis as int / 1000, (millis as int % 1000) * 1_000_000),
        ticks_fit(
            tb,
            time_as_ticks(tb, millis as int / 1000, (millis as int % 1000) * 1_000_000),
        ),
        0 <= ticks_as_millis(
            tb,
            time_as_ticks(tb, millis as int / 1000, (millis as int % 1000) * 1_000_000),
        ) <= millis,
{
    let d = tb.denom as int;
    let n = tb.numer as int;
    let s = millis as int / 1000;
    let m = millis as int % 1000;
    let part = (m * 1_000_000 * d) / 1_000_000_000;
    let whole = s * d + part;
    let ts = whole / n;
    let nanos = (ts * n * 1_000_000_000) / d;
    let back = nanos / 1_000_000;
    assert(0 <= part && part * 1000 <= m * d) by (nonlinear_arith)
        requires
            part == (m * 1_000_000 * d) / 1_000_000_000,
            0 <= m,
            0 < d,
    ;
    assert(0 <= whole) by (nonlinear_arith)
        requires
            whole == s * d + part,
            0 <= s,
            0 < d,
            0 <= part,
    ;
    assert(0 <= ts && ts * n <= whole) by (nonlinear_arith)
        requires
            ts == whole / n,
            0 <= whole,
            0 < n,
    ;
    assert(0 <= ts * n * 1_000_000_000) by (nonlinear_arith)
        requires
            0 <= ts,
            0 < n,
    ;
    assert(0 <= nanos && nanos * d <= ts * n * 1_000_000_000) by (nonlinear_arith)
        requires
            nanos == (ts * n * 1_000_000_000) / d,
            0 <= ts * n * 1_000_000_000,
            0 < d,
    ;
    assert(nanos * d <= d * (1_000_000 * millis)) by (nonlinear_arith)
        requires
            nanos * d <= ts * n * 1_000_000_000,
            ts * n <= whole,
            whole == s * d + part,
            part * 1000 <= m * d,
            millis == 1000 * s + m,
            0 < d,
    ;
    assert(nanos <= 1_000_000 * millis) by (nonlinear_arith)
        requires
            nanos * d <= d * (1_000_000 * millis),
            0 < d,
    ;
    assert(back <= millis) by (nonlinear_arith)
        requires
            back == nanos / 1_000_000,
            0 <= nanos <= 1_000_000 * millis,
    ;
    assert(0 <= back && 0 <= nanos / 1_000_000_000 <= i64::MAX) by (nonlinear_arith)
        requires
            back == nanos / 1_000_000,
            0 <= nanos <= 1_000_000 * millis,
            millis <= u64::MAX,
    ;
    assert(time_as_ticks(tb, s, m * 1_000_000) == ts);
    assert(ticks_as_nanos(tb, ts) == nanos);
    assert(ticks_as_millis(tb, ts) == back);
}

/// The whole seconds that a duration holds.
pub uninterp spec fn duration_secs(d: Duration) -> u64;

/// The nanoseconds of a duration beyond its whole seconds.
pub uninterp spec fn duration_subsec(d: Duration) -> u32;

/// The position that a number of milliseconds stands for, brought into the
/// range of a duration's millisecond count.
pub open spec fn position_millis(millis: int) -> u64 {
    if millis < 0 {
        0
    } else if millis > u64::MAX {
        u64::MAX
    } else {
        millis as u64
    }
}

/// `Duration::clone`: a duration is `Copy`, and its clone is the duration.
pub assume_specification[ <Duration as Clone>::clone ](d: &Duration) -> (r: Duration)
    ensures
        r == *d,
;

/// `Duration::as_secs`: the whole seconds of a duration.
#[verifier::external_body]
pub(crate) fn duration_as_secs(d: &Duration) -> (secs: u64)
    ensures
        secs == duration_secs(*d),
{
    d.as_secs()
}

/// `Duration::subsec_nanos`: the part of a duration beyond its whole seconds,
/// in nanoseconds, which std documents to be less than one second.
#[verifier::external_body]
pub(crate) fn duration_subsec_nanos(d: &Duration) -> (nanos: u32)
    ensures
        nanos == duration_subsec(*d),
        nanos < 1_000_000_000,
{
    d.subsec_nanos()
}

/// `Duration::from_millis`: the duration of that many milliseconds.
#[verifier::external_body]
pub(crate) fn duration_from_millis(millis: u64) -> (d: Duration)
    ensures
        duration_secs(d) == millis / 1000,
        duration_subsec(d) == (millis % 1000) * 1_000_000,
{
    Duration::from_millis(millis)
}

#[verifier::external_type_specification]
#[verifier::external_body]
pub struct ExSystemTime(SystemTime);

/// `SystemTime::now`: the reading of the system clock. Nothing is promised of
/// it.
#[verifier::external_body]
pub(crate) fn system_now() -> SystemTime {
    SystemTime::now()
}

/// `SystemTime::duration_since` the Unix epoch: the time since then, or
/// `None` where the clock reads earlier. Nothing more is promised of it.
#[verifier::external_body]
pub(crate) fn since_unix_epoch(now: &SystemTime) -> Option<Duration> {
    now.duration_since(std::time::UNIX_EPOCH).ok()
}

/// `TimeBase::calc_time` followed by `Time::as_millis`, of symphonia: the
/// milliseconds that a timestamp comes to, or `None` where the seconds do not
/// fit a signed 64-bit count. Both round toward zero.
#[verifier::external_body]
pub(crate) fn timestamp_millis(tb: TimeBase, ts: i64) -> (r: Option<i128>)
    requires
        tb.valid(),
    ensures
        r is Some <==> ticks_fit(tb, ts as int),
        r matches Some(millis) ==> millis == ticks_as_millis(tb, ts as int),
{
    let base = symphonia::core::units::TimeBase::try_new(tb.numer, tb.denom)?;
    let time = base.calc_time(symphonia::core::units::Timestamp::new(ts))?;
    Some(time.as_millis())
}

/// `TimeBase::calc_timestamp` of symphonia: the timestamp that a time comes
/// to, or `None` where it does not fit a signed 64-bit count.
#[verifier::external_body]
pub(crate) fn time_timestamp(tb: TimeBase, secs: i64, nanos: u32) -> (r: Option<i64>)
    requires
        tb.valid(),
        nanos < 1_000_000_000,
    ensures
        r is Some <==> i64::MIN <= time_as_ticks(tb, secs as int, nanos as int) <= i64::MAX,
        r matches Some(ts) ==> ts == time_as_ticks(tb, secs as int, nanos as int),
{
    let base = symphonia::core::units::TimeBase::try_new(tb.numer, tb.denom)?;
    let time = symphonia::core::units::Time::try_new(secs, nanos)?;
    base.calc_timestamp(time).map(|ts| ts.get())
}

/// The playback position, in milliseconds, that a timestamp stands for.
///
/// A timestamp before the start counts as the start; one whose time cannot be
/// held counts as the end of what can.
pub fn position_of(tb: TimeBase, ts: i64) -> (millis: u64)
    requires
        tb.valid(),
    ensures
        millis == if ticks_fit(tb, ts as int) {
            position_millis(ticks_as_millis(tb, ts as int))
        } else if ts < 0 {
            0
        } else {
            u64::MAX
        },
{
    match timestamp_millis(tb, ts) {
        Some(millis) => {
            if millis < 0 {
                0
            } else if millis > u64::MAX as i128 {
                u64::MAX
            } else {
                millis as u64
            }
        },
        None => {
            if ts < 0 {
                0
            } else {
                u64::MAX
            }
        },
    }
}

} // verus!
