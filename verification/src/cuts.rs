//! Beat-grid snapping, the smart cut points of a track, and its mix window.

use vstd::prelude::*;
use vstd::arithmetic::div_mod::lemma_fundamental_div_mod_converse;
use crate::units::{clamp_int, max_int, min_int, min_time, opt_period_ok, opt_reach_ok, opt_time,
    reach_ok, span_ok, time_ok, GRID_LIMIT, PERIOD_LIMIT};

verus! {

/// Beats between two lines of the grid that cut points are snapped to.
pub const CUT_GRID: u32 = 4;

/// Confidence that a tempo needs before cut points are snapped to its grid.
pub const CUT_CONFIDENCE: u32 = 400_000;

/// How long after the last vocal frame the search for the cut-out ends.
pub const CUT_OUT_REACH: i64 = 40_000_000;

/// A cut-out snapped to less than this after the last vocal frame is moved.
pub const CUT_OUT_GUARD: i64 = 2_000_000;

/// Where a cut-out that was too close to the last vocal frame is snapped
/// again: this long after that frame.
pub const CUT_OUT_RETRY: i64 = 4_000_000;

/// Length of the mix window where no tempo is known.
pub const MIX_SPAN_DEFAULT: i64 = 20_000_000;

/// Shortest mix window.
pub const MIX_SPAN_MIN: i64 = 15_000_000;

/// Longest mix window.
pub const MIX_SPAN_MAX: i64 = 30_000_000;

/// Beats in the mix window of a track with a tempo: eight bars.
pub const MIX_BEATS: i64 = 32;

/// How long before the end of the track the mix window is centred where no
/// cut-out is known.
pub const MIX_TAIL: i64 = 10_000_000;

/// Farthest that snapping moves a time forward: half the widest grid step.
pub const SNAP_REACH: i64 = 0x200_0000_0000;

/// The window of a track in which a transition is mixed.
#[derive(Clone, Copy, Debug, PartialEq, Eq)]
pub struct MixWindow {
    /// Centre of the window.
    pub center: i64,
    /// Start of the window.
    pub start: i64,
    /// End of the window.
    pub end: i64,
}

/// The time `time` moved to the nearest line of a beat grid, the later one
/// at a tie. The grid has a line at `first_beat` and one every `beats` beats
/// of `period` microseconds after it; a time before `first_beat` moves to
/// `first_beat`. Without a grid (no positive period, no beats) the time stays
/// where it is.
pub open spec fn snapped(time: int, period: int, first_beat: int, beats: int) -> int {
    let grid = period * beats;
    if period <= 0 || grid <= 0 {
        time
    } else if time <= first_beat {
        first_beat
    } else {
        first_beat + ((2 * (time - first_beat) + grid) / (2 * grid)) * grid
    }
}

/// Whether `time` lies on a line of the grid.
pub open spec fn on_grid(time: int, period: int, first_beat: int, beats: int) -> bool {
    exists|k: int| k >= 0 && time == first_beat + #[trigger] (k * (period * beats))
}

/// Whether a tempo is known well enough to snap cut points to its grid.
pub open spec fn grid_trusted(
    period: Option<int>,
    first_beat: Option<int>,
    confidence: Option<u32>,
) -> bool {
    period is Some && first_beat is Some && confidence is Some && confidence->0 > CUT_CONFIDENCE
}

/// Where the search for the cut-out ends: forty seconds after the last vocal
/// frame, but not after the fade-out; at the fade-out without vocals.
pub open spec fn search_end_of(vocal_out: Option<int>, fade_out: int) -> int {
    match vocal_out {
        Some(v) => min_int(v + CUT_OUT_REACH, fade_out),
        None => fade_out,
    }
}

/// The smart cut-out. With a trusted grid: the end of the search snapped to
/// the grid; if that is less than two seconds after the last vocal frame,
/// four seconds after that frame snapped to the grid instead; in both cases
/// not after the end of the track. Without one: the end of the search.
pub open spec fn cut_out_of(
    period: Option<int>,
    first_beat: Option<int>,
    confidence: Option<u32>,
    vocal_out: Option<int>,
    fade_out: int,
    duration: int,
) -> int {
    let search_end = search_end_of(vocal_out, fade_out);
    if grid_trusted(period, first_beat, confidence) {
        let near = snapped(search_end, period->0, first_beat->0, CUT_GRID as int);
        if vocal_out is Some && near < vocal_out->0 + CUT_OUT_GUARD {
            min_int(
                snapped(vocal_out->0 + CUT_OUT_RETRY, period->0, first_beat->0, CUT_GRID as int),
                duration,
            )
        } else {
            min_int(near, duration)
        }
    } else {
        search_end
    }
}

/// The point `bars` bars of four beats before `anchor`.
pub open spec fn bars_before(anchor: int, period: int, bars: int) -> int {
    anchor - bars * (4 * period)
}

/// The smart cut-in. With a trusted grid: 32 bars before the anchor, or 16,
/// or 8, whichever comes first in that order and still lies after the
/// fade-in, snapped to the grid. The fade-in if none does or no grid is
/// trusted. The anchor is the fade-in where none is given.
pub open spec fn cut_in_of(
    period: Option<int>,
    first_beat: Option<int>,
    confidence: Option<u32>,
    anchor: Option<int>,
    fade_in: int,
) -> int {
    let from = match anchor {
        Some(a) => a,
        None => fade_in,
    };
    if grid_trusted(period, first_beat, confidence) {
        let p = period->0;
        let fb = first_beat->0;
        if bars_before(from, p, 32) > fade_in {
            snapped(bars_before(from, p, 32), p, fb, CUT_GRID as int)
        } else if bars_before(from, p, 16) > fade_in {
            snapped(bars_before(from, p, 16), p, fb, CUT_GRID as int)
        } else if bars_before(from, p, 8) > fade_in {
            snapped(bars_before(from, p, 8), p, fb, CUT_GRID as int)
        } else {
            fade_in
        }
    } else {
        fade_in
    }
}

/// Length of the mix window: eight bars, but at least 15 and at most 30
/// seconds; 20 seconds without a tempo.
pub open spec fn mix_span_of(period: Option<int>) -> int {
    match period {
        Some(p) => clamp_int(MIX_BEATS * p, MIX_SPAN_MIN as int, MIX_SPAN_MAX as int),
        None => MIX_SPAN_DEFAULT as int,
    }
}

/// Centre of the mix window: the cut-out, or ten seconds before the end of
/// the track where there is none, and in no case after the end.
pub open spec fn mix_center_of(cut_out: Option<int>, duration: int) -> int {
    min_int(
        match cut_out {
            Some(c) => c,
            None => max_int(duration - MIX_TAIL, 0),
        },
        duration,
    )
}

/// The mix window: half its length to either side of its centre, cut off at
/// the start and at the end of the track.
pub open spec fn mix_window_of(cut_out: Option<int>, period: Option<int>, duration: int) -> (
    int,
    int,
    int,
) {
    let center = mix_center_of(cut_out, duration);
    let half = mix_span_of(period) / 2;
    (center, max_int(center - half, 0), min_int(center + half, duration))
}

/// A whole number of grid steps and a half more, divided by two steps, is
/// that whole number.
proof fn lemma_half_step(k: int, grid: int)
    requires
        k >= 0,
        grid > 0,
    ensures
        (2 * (k * grid) + grid) / (2 * grid) == k,
{
    assert(2 * (k * grid) + grid == k * (2 * grid) + grid) by (nonlinear_arith);
    lemma_fundamental_div_mod_converse(2 * (k * grid) + grid, 2 * grid, k, grid);
}

/// A time after the first beat snaps to a grid line that is at most half a
/// grid step away from it.
pub proof fn lemma_snapped_nearest(time: int, period: int, first_beat: int, beats: int)
    requires
        period > 0,
        beats > 0,
        time >= first_beat,
    ensures
        on_grid(snapped(time, period, first_beat, beats), period, first_beat, beats),
        2 * (snapped(time, period, first_beat, beats) - time) <= period * beats,
        2 * (time - snapped(time, period, first_beat, beats)) < period * beats,
{
    let grid = period * beats;
    assert(grid > 0) by (nonlinear_arith)
        requires
            grid == period * beats,
            period > 0,
            beats > 0,
    ;
    if time == first_beat {
        assert(first_beat == first_beat + 0 * (period * beats));
    } else {
        let d = time - first_beat;
        let k = (2 * d + grid) / (2 * grid);
        vstd::arithmetic::div_mod::lemma_fundamental_div_mod(2 * d + grid, 2 * grid);
        vstd::arithmetic::div_mod::lemma_mod_bound(2 * d + grid, 2 * grid);
        let r = (2 * d + grid) % (2 * grid);
        assert((2 * grid) * k == 2 * (k * grid)) by (nonlinear_arith);
        assert(k >= 0) by (nonlinear_arith)
            requires
                2 * d + grid == (2 * grid) * k + r,
                0 <= r < 2 * grid,
                d > 0,
                grid > 0,
        ;
    }
}

/// Snapping a snapped time to the same grid leaves it where it is.
pub proof fn law_snap_idempotent(time: int, period: int, first_beat: int, beats: int)
    ensures
        snapped(snapped(time, period, first_beat, beats), period, first_beat, beats) == snapped(
            time,
            period,
            first_beat,
            beats,
        ),
{
    let grid = period * beats;
    if period > 0 && grid > 0 && time > first_beat {
        let d = time - first_beat;
        let k = (2 * d + grid) / (2 * grid);
        vstd::arithmetic::div_mod::lemma_fundamental_div_mod(2 * d + grid, 2 * grid);
        vstd::arithmetic::div_mod::lemma_mod_bound(2 * d + grid, 2 * grid);
        let r = (2 * d + grid) % (2 * grid);
        assert(k >= 0) by (nonlinear_arith)
            requires
                2 * d + grid == (2 * grid) * k + r,
                0 <= r < 2 * grid,
                d > 0,
                grid > 0,
        ;
        assert(k * grid >= 0) by (nonlinear_arith)
            requires
                k >= 0,
                grid > 0,
        ;
        if k * grid > 0 {
            lemma_half_step(k, grid);
        }
    }
}

/// Moves `time` to the nearest line of the grid that has a line at
/// `first_beat` and one every `grid` beats of `beat_period` microseconds
/// after it. A time before the first beat moves to the first beat. Without a
/// positive beat period or with a grid of no beats, the time is returned as
/// it is.
pub fn snap_time(time: i64, beat_period: i64, first_beat: i64, grid: u32) -> (r: i64)
    requires
        span_ok(time as int),
        span_ok(first_beat as int),
        beat_period <= PERIOD_LIMIT,
        grid <= GRID_LIMIT,
    ensures
        r == snapped(time as int, beat_period as int, first_beat as int, grid as int),
        beat_period > 0 && grid > 0 ==> first_beat <= r,
        beat_period > 0 && grid > 0 && time >= first_beat ==> 2 * (r - time) <= beat_period * grid
            && 2 * (time - r) < beat_period * grid,
        min_int(time as int, first_beat as int) <= r <= max_int(time as int, first_beat as int)
            + SNAP_REACH,
{
    if beat_period <= 0 || grid == 0 {
        assert(beat_period * grid <= 0) by (nonlinear_arith)
            requires
                beat_period <= 0 || grid == 0,
                grid >= 0,
        ;
        return time;
    }
    assert(0 < beat_period * grid <= PERIOD_LIMIT * GRID_LIMIT) by (nonlinear_arith)
        requires
            0 < beat_period <= PERIOD_LIMIT,
            0 < grid <= GRID_LIMIT,
    ;
    let step: i64 = beat_period * grid as i64;
    if time <= first_beat {
        return first_beat;
    }
    let d: i64 = time - first_beat;
    let k: i64 = (2 * d + step) / (2 * step);
    proof {
        lemma_snapped_nearest(time as int, beat_period as int, first_beat as int, grid as int);
        vstd::arithmetic::div_mod::lemma_fundamental_div_mod(2 * d + step, 2 * step);
        vstd::arithmetic::div_mod::lemma_mod_bound(2 * d + step, 2 * step);
        assert((2 * step) * k == 2 * (k * step)) by (nonlinear_arith);
        assert(0 <= k * step <= d + step) by (nonlinear_arith)
            requires
                2 * d + step == 2 * (k * step) + (2 * d + step) % (2 * step),
                0 <= (2 * d + step) % (2 * step) < 2 * step,
                d > 0,
                step > 0,
        ;
    }
    first_beat + k * step
}

/// The smart cut-out of a track: where to leave it. With a tempo trusted
/// above 0.4, the end of the search (forty seconds after the last vocal
/// frame, at most the fade-out) snapped to the four-beat grid, or, if that is
/// less than two seconds after the last vocal frame, four seconds after that
/// frame snapped to the grid; not after the end of the track. Otherwise the
/// end of the search.
pub fn calculate_smart_cut_out(
    beat_period: Option<i64>,
    first_beat: Option<i64>,
    confidence: Option<u32>,
    vocal_out: Option<i64>,
    fade_out: i64,
    duration: i64,
) -> (r: Option<i64>)
    requires
        opt_period_ok(beat_period),
        opt_reach_ok(first_beat),
        opt_reach_ok(vocal_out),
        reach_ok(fade_out as int),
        time_ok(duration as int),
    ensures
        r is Some,
        r->0 == cut_out_of(
            opt_time(beat_period),
            opt_time(first_beat),
            confidence,
            opt_time(vocal_out),
            fade_out as int,
            duration as int,
        ),
        span_ok(r->0 as int),
{
    let search_end: i64 = match vocal_out {
        Some(v) => min_time(v + CUT_OUT_REACH, fade_out),
        None => fade_out,
    };
    match (beat_period, first_beat, confidence) {
        (Some(p), Some(fb), Some(c)) => {
            if c > CUT_CONFIDENCE {
                let near: i64 = snap_time(search_end, p, fb, CUT_GRID);
                match vocal_out {
                    Some(v) => {
                        if near < v + CUT_OUT_GUARD {
                            let later: i64 = snap_time(v + CUT_OUT_RETRY, p, fb, CUT_GRID);
                            return Some(min_time(later, duration));
                        }
                    },
                    None => {},
                }
                return Some(min_time(near, duration));
            }
        },
        _ => {},
    }
    Some(search_end)
}

/// The smart cut-in of a track: where to enter it. With a tempo trusted above
/// 0.4, the first of 32, 16 and 8 bars before the anchor that lies after the
/// fade-in, snapped to the four-beat grid. Otherwise, and where none of them
/// does, the fade-in. The anchor is the fade-in where none is given.
pub fn calculate_smart_cut_in(
    beat_period: Option<i64>,
    first_beat: Option<i64>,
    confidence: Option<u32>,
    anchor: Option<i64>,
    fade_in: i64,
) -> (r: Option<i64>)
    requires
        opt_period_ok(beat_period),
        opt_reach_ok(first_beat),
        opt_reach_ok(anchor),
        reach_ok(fade_in as int),
    ensures
        r is Some,
        r->0 == cut_in_of(
            opt_time(beat_period),
            opt_time(first_beat),
            confidence,
            opt_time(anchor),
            fade_in as int,
        ),
        span_ok(r->0 as int),
{
    let from: i64 = match anchor {
        Some(a) => a,
        None => fade_in,
    };
    match (beat_period, first_beat, confidence) {
        (Some(p), Some(fb), Some(c)) => {
            if c > CUT_CONFIDENCE {
                let bar: i64 = 4 * p;
                let far: i64 = from - 32 * bar;
                if far > fade_in {
                    return Some(snap_time(far, p, fb, CUT_GRID));
                }
                let mid: i64 = from - 16 * bar;
                if mid > fade_in {
                    return Some(snap_time(mid, p, fb, CUT_GRID));
                }
                let close: i64 = from - 8 * bar;
                if close > fade_in {
                    return Some(snap_time(close, p, fb, CUT_GRID));
                }
            }
        },
        _ => {},
    }
    Some(fade_in)
}

/// The mix window of a track: centred on the cut-out (ten seconds before the
/// end where there is none; at the end at the latest), eight bars long but
/// between 15 and 30 seconds (20 seconds without a tempo), and cut off at the
/// start and at the end of the track.
pub fn mix_window(cut_out: Option<i64>, beat_period: Option<i64>, duration: i64) -> (w: MixWindow)
    requires
        cut_out is Some ==> span_ok(cut_out->0 as int),
        opt_period_ok(beat_period),
        time_ok(duration as int),
    ensures
        (w.center as int, w.start as int, w.end as int) == mix_window_of(
            opt_time(cut_out),
            opt_time(beat_period),
            duration as int,
        ),
{
    let wanted: i64 = match cut_out {
        Some(c) => c,
        None => if duration - MIX_TAIL > 0 {
            duration - MIX_TAIL
        } else {
            0
        },
    };
    let center: i64 = min_time(wanted, duration);
    let span: i64 = match beat_period {
        Some(p) => {
            let bars: i64 = MIX_BEATS * p;
            if bars < MIX_SPAN_MIN {
                MIX_SPAN_MIN
            } else if bars > MIX_SPAN_MAX {
                MIX_SPAN_MAX
            } else {
                bars
            }
        },
        None => MIX_SPAN_DEFAULT,
    };
    let half: i64 = span / 2;
    let start: i64 = if center - half > 0 {
        center - half
    } else {
        0
    };
    let end: i64 = min_time(center + half, duration);
    MixWindow { center, start, end }
}

/// The mix window of a track whose cut-out is not before its start: the
/// window lies within the track, its centre lies in it, and it is at most 30
/// seconds long. Where neither end was cut off it is as long as the tempo
/// asks, which is between 15 and 30 seconds.
pub proof fn law_mix_window(cut_out: Option<int>, period: Option<int>, duration: int)
    requires
        duration >= 0,
        cut_out is Some ==> cut_out->0 >= 0,
    ensures
        ({
            let (center, start, end) = mix_window_of(cut_out, period, duration);
            let span = mix_span_of(period);
            &&& 0 <= start <= center <= end <= duration
            &&& end - start <= span <= MIX_SPAN_MAX
            &&& MIX_SPAN_MIN <= span
            &&& (center - span / 2 >= 0 && center + span / 2 <= duration) ==> end - start == span
        }),
{
}

/// The smart cut-out of a track is not before its start if its fade-out, its
/// last vocal frame and its first beat are not.
pub proof fn lemma_cut_out_not_negative(
    period: Option<int>,
    first_beat: Option<int>,
    confidence: Option<u32>,
    vocal_out: Option<int>,
    fade_out: int,
    duration: int,
)
    requires
        fade_out >= 0,
        duration >= 0,
        vocal_out is Some ==> vocal_out->0 >= 0,
        first_beat is Some ==> first_beat->0 >= 0,
    ensures
        cut_out_of(period, first_beat, confidence, vocal_out, fade_out, duration) >= 0,
{
    if grid_trusted(period, first_beat, confidence) {
        let p = period->0;
        let fb = first_beat->0;
        lemma_snapped_not_before(search_end_of(vocal_out, fade_out), p, fb, CUT_GRID as int);
        if vocal_out is Some {
            lemma_snapped_not_before(vocal_out->0 + CUT_OUT_RETRY, p, fb, CUT_GRID as int);
        }
    }
}

/// A snapped time is not before the earlier of the time and the first beat.
pub proof fn lemma_snapped_not_before(time: int, period: int, first_beat: int, beats: int)
    ensures
        snapped(time, period, first_beat, beats) >= min_int(time, first_beat),
{
    let grid = period * beats;
    if period > 0 && grid > 0 && time > first_beat {
        let d = time - first_beat;
        let k = (2 * d + grid) / (2 * grid);
        vstd::arithmetic::div_mod::lemma_fundamental_div_mod(2 * d + grid, 2 * grid);
        vstd::arithmetic::div_mod::lemma_mod_bound(2 * d + grid, 2 * grid);
        let r = (2 * d + grid) % (2 * grid);
        assert(k * grid >= 0) by (nonlinear_arith)
            requires
                2 * d + grid == (2 * grid) * k + r,
                0 <= r < 2 * grid,
                d > 0,
                grid > 0,
        ;
    }
}

} // verus!
