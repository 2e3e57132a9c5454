//! Fixed-point units shared by the analyzer, the planner and the player.
//!
//! A time or duration is a signed number of microseconds. A level, ratio,
//! gain or confidence is an unsigned number of millionths of full scale.

use vstd::prelude::*;

verus! {

/// Full scale of a level, ratio, gain or confidence.
pub const UNIT: u32 = 1_000_000;

/// Length of one envelope frame: envelopes are sampled at 50 Hz.
pub const FRAME_MICROS: i64 = 20_000;

/// Length of one slot of the energy profile, which is sampled at 10 Hz.
pub const SLOT_MICROS: i64 = 100_000;

/// Longest duration the library accepts, a little under thirteen days.
pub const TIME_LIMIT: i64 = 0x100_0000_0000;

/// Longest envelope the library accepts: as many frames as fit in
/// [`TIME_LIMIT`].
pub const FRAME_LIMIT: usize = 54_975_581;

/// Longest beat period the library accepts, about 71 minutes.
pub const PERIOD_LIMIT: i64 = 0x1_0000_0000;

/// Largest distance from zero of a point in time that the library computes
/// with: sixteen times [`TIME_LIMIT`], before or after the start of a track.
pub const SPAN_LIMIT: i64 = 0x1000_0000_0000;

/// Largest number of beats between two lines of a beat grid.
pub const GRID_LIMIT: u32 = 1024;

/// Whether `t` is a point in time the library computes with: at most
/// [`SPAN_LIMIT`] before or after the start of a track.
pub open spec fn span_ok(t: int) -> bool {
    -SPAN_LIMIT <= t <= SPAN_LIMIT
}

/// Whether `t` is a point in time that a detector may report: at most twice
/// [`TIME_LIMIT`] before or after the start of a track.
pub open spec fn reach_ok(t: int) -> bool {
    -2 * TIME_LIMIT <= t <= 2 * TIME_LIMIT
}

/// Whether `t`, if there is one, is a point in time that a detector may
/// report.
pub open spec fn opt_reach_ok(t: Option<i64>) -> bool {
    t is Some ==> reach_ok(t->0 as int)
}

/// Whether `p`, if there is one, is a beat period the library computes with:
/// at most [`PERIOD_LIMIT`] in either direction.
pub open spec fn opt_period_ok(p: Option<i64>) -> bool {
    p is Some ==> -PERIOD_LIMIT <= p->0 <= PERIOD_LIMIT
}

/// Whether `t` is a time the library accepts: not negative and at most
/// [`TIME_LIMIT`].
pub open spec fn time_ok(t: int) -> bool {
    0 <= t <= TIME_LIMIT
}

/// An optional time as an optional integer.
pub open spec fn opt_time(t: Option<i64>) -> Option<int> {
    match t {
        Some(v) => Some(v as int),
        None => None,
    }
}

/// The larger of two integers.
pub open spec fn max_int(a: int, b: int) -> int {
    if a >= b {
        a
    } else {
        b
    }
}

/// The smaller of two integers.
pub open spec fn min_int(a: int, b: int) -> int {
    if a <= b {
        a
    } else {
        b
    }
}

/// `x` held between `lo` and `hi`.
pub open spec fn clamp_int(x: int, lo: int, hi: int) -> int {
    max_int(lo, min_int(x, hi))
}

/// The smaller of two times.
pub fn min_time(a: i64, b: i64) -> (r: i64)
    ensures
        r == min_int(a as int, b as int),
{
    if a <= b {
        a
    } else {
        b
    }
}

/// The time of a time stamp in a time base of `numer / denom` seconds:
/// the stamp times the base, rounded down to microseconds, and at most
/// [`TIME_LIMIT`]; zero in a base without a denominator.
pub open spec fn stamp_time_of(stamp: u64, numer: u32, denom: u32) -> int {
    if denom == 0 {
        0
    } else {
        min_int(stamp as int * numer as int * 1_000_000 / denom as int, TIME_LIMIT as int)
    }
}

/// The time of a time stamp in a time base of `numer / denom` seconds.
pub fn stamp_time(stamp: u64, numer: u32, denom: u32) -> (t: i64)
    ensures
        t == stamp_time_of(stamp, numer, denom),
        time_ok(t as int),
{
    if denom == 0 {
        return 0;
    }
    assert(stamp * numer <= 0xffff_ffff_ffff_ffff * 0xffff_ffff) by (nonlinear_arith)
        requires
            0 <= stamp <= 0xffff_ffff_ffff_ffff,
            0 <= numer <= 0xffff_ffff,
    ;
    let scaled: u128 = stamp as u128 * numer as u128 * 1_000_000;
    let wide: u128 = scaled / denom as u128;
    if wide > TIME_LIMIT as u128 {
        TIME_LIMIT
    } else {
        wide as i64
    }
}

} // verus!
