//! Tempo and beat phase from the envelope of the head of a track.
//!
//! The tempo is held as the length of one beat. A beat of `p` microseconds is
//! a tempo of `60_000_000 / p` beats per minute.

use vstd::prelude::*;
use crate::units::{FRAME_LIMIT, FRAME_MICROS};

verus! {

/// Shortest beat looked for, in frames: 200 beats per minute.
pub const MIN_LAG: usize = 15;

/// One more than the longest beat looked for, in frames; the longest is a
/// little over 55 beats per minute.
pub const MAX_LAG: usize = 55;

/// Fewest frames of envelope from which a tempo is read: they give 110
/// rises from one frame to the next.
pub const MIN_FRAMES: usize = 111;

/// Score that the best beat length has to exceed: a thousandth of full scale
/// squared.
pub const SCORE_FLOOR: u128 = 1_000_000_000;

/// Confidence reported with every tempo found.
pub const TEMPO_CONFIDENCE: u32 = 800_000;

/// Microseconds in a minute.
pub const MINUTE: i64 = 60_000_000;

/// A tempo and where its beats fall.
#[derive(Clone, Copy, Debug, PartialEq, Eq)]
pub struct Tempo {
    /// Length of one beat.
    pub beat_period: i64,
    /// Time of the first beat.
    pub first_beat: i64,
    /// Confidence in the tempo.
    pub confidence: u32,
}

/// For each frame, how much the envelope has risen at it from the frame
/// before; zero where it has fallen, and at the first frame, which has none
/// before it.
pub open spec fn flux_of(env: Seq<u32>) -> Seq<u32> {
    Seq::new(
        env.len(),
        |n: int|
            if n >= 1 && env[n] > env[n - 1] {
                (env[n] - env[n - 1]) as u32
            } else {
                0u32
            },
    )
}

/// Sum of the products of the first `n` rises with the rises `lag` frames
/// later.
pub open spec fn lag_sum(flux: Seq<u32>, lag: int, n: int) -> int
    decreases n,
{
    if n <= 0 {
        0
    } else {
        lag_sum(flux, lag, n - 1) + flux[n - 1] * flux[n - 1 + lag]
    }
}

/// Score of a beat length of `lag` frames: the correlation of the rises with
/// themselves `lag` frames later, not normalised.
pub open spec fn lag_score(flux: Seq<u32>, lag: int) -> int {
    lag_sum(flux, lag, flux.len() - lag)
}

/// The beat length in `[MIN_LAG, hi)` with the largest score, the shortest of
/// them if several have it.
pub open spec fn best_lag(flux: Seq<u32>, hi: int) -> int
    decreases hi,
{
    if hi <= MIN_LAG + 1 {
        MIN_LAG as int
    } else {
        let b = best_lag(flux, hi - 1);
        if lag_score(flux, hi - 1) > lag_score(flux, b) {
            hi - 1
        } else {
            b
        }
    }
}

/// How many positions of a sequence of length `len` lie at or after `from`.
pub open spec fn left_from(len: nat, from: int) -> nat {
    if from < len {
        (len - from) as nat
    } else {
        0
    }
}

/// Sum of the rises at `from`, `from + lag`, `from + 2 * lag` and so on.
pub open spec fn comb_sum(flux: Seq<u32>, lag: int, from: int) -> int
    decreases left_from(flux.len(), from),
{
    if 0 <= from < flux.len() && lag > 0 {
        flux[from] + comb_sum(flux, lag, from + lag)
    } else {
        0
    }
}

/// The phase in `[0, hi)` whose comb gathers the largest sum of rises, the
/// latest of them if several do.
pub open spec fn best_phase(flux: Seq<u32>, lag: int, hi: int) -> int
    decreases hi,
{
    if hi <= 1 {
        0
    } else {
        let b = best_phase(flux, lag, hi - 1);
        if comb_sum(flux, lag, hi - 1) >= comb_sum(flux, lag, b) {
            hi - 1
        } else {
            b
        }
    }
}

/// The tempo of an envelope: the beat length with the best score, if the
/// envelope is long enough and that score is above the floor, and the phase
/// at which the beats gather most rise.
pub open spec fn tempo_of(env: Seq<u32>) -> Option<Tempo> {
    let flux = flux_of(env);
    let lag = best_lag(flux, MAX_LAG as int);
    if env.len() < MIN_FRAMES || lag_score(flux, lag) <= SCORE_FLOOR {
        None
    } else {
        Some(
            Tempo {
                beat_period: (lag * FRAME_MICROS) as i64,
                first_beat: (best_phase(flux, lag, lag) * FRAME_MICROS) as i64,
                confidence: TEMPO_CONFIDENCE,
            },
        )
    }
}

/// The best beat length lies in the range searched.
pub proof fn lemma_best_lag_range(flux: Seq<u32>, hi: int)
    requires
        hi > MIN_LAG,
    ensures
        MIN_LAG <= best_lag(flux, hi) < hi,
    decreases hi,
{
    if hi > MIN_LAG + 1 {
        lemma_best_lag_range(flux, hi - 1);
    }
}

/// No beat length in the range searched scores higher than the best one, and
/// none before it scores as high.
pub proof fn law_best_lag(flux: Seq<u32>, hi: int, lag: int)
    requires
        MIN_LAG <= lag < hi,
    ensures
        lag_score(flux, lag) <= lag_score(flux, best_lag(flux, hi)),
        lag < best_lag(flux, hi) ==> lag_score(flux, lag) < lag_score(flux, best_lag(flux, hi)),
    decreases hi,
{
    if hi > MIN_LAG + 1 {
        lemma_best_lag_range(flux, hi - 1);
        if lag < hi - 1 {
            law_best_lag(flux, hi - 1, lag);
        }
    }
}

/// The best phase lies in the range searched.
pub proof fn lemma_best_phase_range(flux: Seq<u32>, lag: int, hi: int)
    requires
        hi >= 1,
    ensures
        0 <= best_phase(flux, lag, hi) < hi,
    decreases hi,
{
    if hi > 1 {
        lemma_best_phase_range(flux, lag, hi - 1);
    }
}

/// No phase in the range searched gathers more than the best one, and none
/// after it gathers as much.
pub proof fn law_best_phase(flux: Seq<u32>, lag: int, hi: int, phase: int)
    requires
        0 <= phase < hi,
    ensures
        comb_sum(flux, lag, phase) <= comb_sum(flux, lag, best_phase(flux, lag, hi)),
        phase > best_phase(flux, lag, hi) ==> comb_sum(flux, lag, phase) < comb_sum(
            flux,
            lag,
            best_phase(flux, lag, hi),
        ),
    decreases hi,
{
    if hi > 1 {
        lemma_best_phase_range(flux, lag, hi - 1);
        if phase < hi - 1 {
            law_best_phase(flux, lag, hi - 1, phase);
        }
    }
}

/// The rises of an envelope.
pub fn flux_vec(env: &[u32]) -> (flux: Vec<u32>)
    ensures
        flux@ == flux_of(env@),
{
    let mut flux: Vec<u32> = Vec::new();
    let n: usize = env.len();
    let mut i: usize = 0;
    while i < n
        invariant
            n == env.len(),
            i <= n,
            flux.len() == i,
            forall|k: int| 0 <= k < i ==> #[trigger] flux[k] == flux_of(env@)[k],
        decreases n - i,
    {
        let rise: u32 = if i >= 1 && env[i] > env[i - 1] {
            env[i] - env[i - 1]
        } else {
            0
        };
        flux.push(rise);
        i += 1;
    }
    flux
}

/// The score of a beat length of `lag` frames.
pub fn score_lag(flux: &[u32], lag: usize) -> (score: u128)
    requires
        flux.len() <= FRAME_LIMIT,
        lag <= flux.len(),
    ensures
        score == lag_score(flux@, lag as int),
{
    let n: usize = flux.len() - lag;
    let mut score: u128 = 0;
    let mut i: usize = 0;
    while i < n
        invariant
            i <= n,
            n == flux.len() - lag,
            flux.len() <= FRAME_LIMIT,
            score == lag_sum(flux@, lag as int, i as int),
            score <= i * 0xffff_fffe_0000_0001,
        decreases n - i,
    {
        let a: u128 = flux[i] as u128;
        let b: u128 = flux[i + lag] as u128;
        assert(a * b <= 0xffff_fffe_0000_0001) by (nonlinear_arith)
            requires
                0 <= a <= 0xffff_ffff,
                0 <= b <= 0xffff_ffff,
        ;
        score = score + a * b;
        i += 1;
    }
    score
}

/// The sum of the rises at `phase`, `phase + lag`, `phase + 2 * lag` and so
/// on.
pub fn comb_energy(flux: &[u32], lag: usize, phase: usize) -> (sum: u64)
    requires
        flux.len() <= FRAME_LIMIT,
        lag > 0,
    ensures
        sum == comb_sum(flux@, lag as int, phase as int),
{
    let n: usize = flux.len();
    let mut sum: u64 = 0;
    let mut idx: usize = phase;
    let mut count: usize = 0;
    while idx < n
        invariant
            n == flux.len(),
            n <= FRAME_LIMIT,
            lag > 0,
            count <= idx,
            sum <= count * 0xffff_ffff,
            sum + comb_sum(flux@, lag as int, idx as int) == comb_sum(
                flux@,
                lag as int,
                phase as int,
            ),
        decreases n - idx,
    {
        sum = sum + flux[idx] as u64;
        count += 1;
        if lag >= n - idx {
            assert(comb_sum(flux@, lag as int, idx + lag) == 0);
            return sum;
        }
        idx += lag;
    }
    sum
}

/// The tempo of the head of a track, from its envelope: the beat length
/// between 15 and 54 frames whose score is largest, and the phase at which
/// the beats gather most rise. `None` if the envelope has fewer than 111
/// frames or the best score is not above the floor.
pub fn detect_bpm(env: &[u32]) -> (r: Option<Tempo>)
    requires
        env.len() <= FRAME_LIMIT,
    ensures
        r == tempo_of(env@),
        r is Some ==> MIN_LAG * FRAME_MICROS <= r->0.beat_period <= (MAX_LAG - 1) * FRAME_MICROS,
        r is Some ==> 0 <= r->0.first_beat < r->0.beat_period,
{
    if env.len() < MIN_FRAMES {
        return None;
    }
    let flux_owned: Vec<u32> = flux_vec(env);
    let flux: &[u32] = flux_owned.as_slice();
    let mut best: usize = MIN_LAG;
    let mut best_score: u128 = score_lag(flux, MIN_LAG);
    let mut lag: usize = MIN_LAG + 1;
    while lag < MAX_LAG
        invariant
            MIN_LAG < lag <= MAX_LAG,
            MIN_LAG <= best < lag,
            flux.len() <= FRAME_LIMIT,
            flux.len() >= MAX_LAG,
            best == best_lag(flux@, lag as int),
            best_score == lag_score(flux@, best as int),
        decreases MAX_LAG - lag,
    {
        let score: u128 = score_lag(flux, lag);
        if score > best_score {
            best = lag;
            best_score = score;
        }
        lag += 1;
    }
    if best_score <= SCORE_FLOOR {
        return None;
    }
    let mut phase_best: usize = 0;
    let mut phase_sum: u64 = comb_energy(flux, best, 0);
    let mut phase: usize = 1;
    while phase < best
        invariant
            1 <= phase <= best,
            MIN_LAG <= best < MAX_LAG,
            phase_best < phase,
            flux.len() <= FRAME_LIMIT,
            phase_best == best_phase(flux@, best as int, phase as int),
            phase_sum == comb_sum(flux@, best as int, phase_best as int),
        decreases best - phase,
    {
        let sum: u64 = comb_energy(flux, best, phase);
        if sum >= phase_sum {
            phase_best = phase;
            phase_sum = sum;
        }
        phase += 1;
    }
    Some(
        Tempo {
            beat_period: best as i64 * FRAME_MICROS,
            first_beat: phase_best as i64 * FRAME_MICROS,
            confidence: TEMPO_CONFIDENCE,
        },
    )
}

/// Whether a beat of `period` microseconds is a tempo strictly between `low`
/// and `high` beats per minute.
pub open spec fn tempo_between(period: int, low: int, high: int) -> bool {
    low * period < MINUTE < high * period
}

/// A tempo that is reported lies above 55 and at most at 200 beats per
/// minute, and below 200 unless its beat is the shortest one looked for.
pub proof fn law_tempo_range(env: Seq<u32>)
    ensures
        match tempo_of(env) {
            Some(t) => {
                &&& 55 * t.beat_period < MINUTE <= 200 * t.beat_period
                &&& t.beat_period != MIN_LAG * FRAME_MICROS ==> tempo_between(
                    t.beat_period as int,
                    55,
                    200,
                )
                &&& 0 <= t.first_beat < t.beat_period
                &&& t.confidence == TEMPO_CONFIDENCE
            },
            None => true,
        },
{
    let flux = flux_of(env);
    lemma_best_lag_range(flux, MAX_LAG as int);
    let lag = best_lag(flux, MAX_LAG as int);
    lemma_best_phase_range(flux, lag, lag);
}

/// Whether an envelope is a click track: the level `level` at every frame
/// that is a multiple of `beat`, the first frame among them, and nothing in
/// between.
pub open spec fn is_click_track(env: Seq<u32>, beat: int, level: u32) -> bool {
    forall|i: int|
        0 <= i < env.len() ==> #[trigger] env[i] == if i % beat == 0 {
            level
        } else {
            0u32
        }
}

/// Whether rises are those of a click track: `level` at every multiple of
/// `beat` but the first frame, and nothing elsewhere.
pub open spec fn is_click_flux(flux: Seq<u32>, beat: int, level: u32) -> bool {
    forall|n: int|
        0 <= n < flux.len() ==> #[trigger] flux[n] == if n >= 1 && n % beat == 0 {
            level
        } else {
            0u32
        }
}

/// How many of the frames from 1 to `n - 1` are multiples of `beat`.
pub open spec fn beats_in(beat: int, n: int) -> int
    decreases n,
{
    if n <= 1 {
        0
    } else if (n - 1) % beat == 0 {
        beats_in(beat, n - 1) + 1
    } else {
        beats_in(beat, n - 1)
    }
}

/// The rises of a click track are those of its clicks.
proof fn lemma_click_flux(env: Seq<u32>, beat: int, level: u32)
    requires
        beat >= 2,
        is_click_track(env, beat, level),
    ensures
        is_click_flux(flux_of(env), beat, level),
{
    let flux = flux_of(env);
    assert forall|n: int| 0 <= n < flux.len() implies #[trigger] flux[n] == if n >= 1 && n % beat
        == 0 {
        level
    } else {
        0u32
    } by {
        if n >= 1 && n % beat == 0 {
            vstd::arithmetic::div_mod::lemma_fundamental_div_mod(n, beat);
            let q = n / beat;
            assert(n == beat * q);
            assert(beat * (q - 1) == beat * q - beat) by (nonlinear_arith);
            vstd::arithmetic::div_mod::lemma_fundamental_div_mod_converse(
                n - 1,
                beat,
                q - 1,
                beat - 1,
            );
            assert(env[n - 1] == 0u32);
            assert(env[n] == level);
        } else if n >= 1 {
            assert(env[n] == 0u32);
        }
    }
}

/// A count of beats is not negative.
proof fn lemma_beats_not_negative(beat: int, n: int)
    ensures
        beats_in(beat, n) >= 0,
    decreases n,
{
    if n > 1 {
        lemma_beats_not_negative(beat, n - 1);
    }
}

/// Counts of beats grow with the frames.
proof fn lemma_beats_grow(beat: int, n: int, m: int)
    requires
        n <= m,
    ensures
        0 <= beats_in(beat, n) <= beats_in(beat, m),
    decreases m - n,
{
    lemma_beats_not_negative(beat, n);
    if n < m {
        lemma_beats_grow(beat, n, m - 1);
    }
}

/// A beat length that is no multiple of the beat of a click track scores
/// nothing.
proof fn lemma_off_beat_scores_nothing(flux: Seq<u32>, beat: int, level: u32, lag: int, n: int)
    requires
        beat >= 2,
        is_click_flux(flux, beat, level),
        lag >= 0,
        lag % beat != 0,
        n <= flux.len() - lag,
    ensures
        lag_sum(flux, lag, n) == 0,
    decreases n,
{
    if n > 0 {
        lemma_off_beat_scores_nothing(flux, beat, level, lag, n - 1);
        let i = n - 1;
        if flux[i] != 0 && flux[i + lag] != 0 {
            vstd::arithmetic::div_mod::lemma_sub_mod_noop(i + lag, i, beat);
            assert(((i + lag) % beat - i % beat) % beat == (i + lag - i) % beat);
            assert(0int % beat == 0) by (nonlinear_arith)
                requires
                    beat >= 2,
            ;
        }
        assert(flux[i] * flux[i + lag] == 0) by (nonlinear_arith)
            requires
                flux[i] == 0 || flux[i + lag] == 0,
        ;
    }
}

/// A beat length that is a multiple of the beat of a click track scores the
/// level squared for every beat that it lines up with a later one.
proof fn lemma_on_beat_scores(flux: Seq<u32>, beat: int, level: u32, lag: int, n: int)
    requires
        beat >= 2,
        is_click_flux(flux, beat, level),
        lag > 0,
        lag % beat == 0,
        0 <= n <= flux.len() - lag,
    ensures
        lag_sum(flux, lag, n) == level * level * beats_in(beat, n),
    decreases n,
{
    if n > 0 {
        lemma_on_beat_scores(flux, beat, level, lag, n - 1);
        let i = n - 1;
        vstd::arithmetic::div_mod::lemma_add_mod_noop(i, lag, beat);
        assert(((i % beat) + (lag % beat)) % beat == (i + lag) % beat);
        vstd::arithmetic::div_mod::lemma_mod_twice(i, beat);
        if i >= 1 && i % beat == 0 {
            assert(0int % beat == 0) by (nonlinear_arith)
                requires
                    beat >= 2,
            ;
            assert(flux[i] == level);
            assert(flux[i + lag] == level);
            assert(level * level * (beats_in(beat, n - 1) + 1) == level * level * beats_in(
                beat,
                n - 1,
            ) + level * level) by (nonlinear_arith);
        } else {
            assert(flux[i] == 0);
            assert(flux[i] * flux[i + lag] == 0) by (nonlinear_arith)
                requires
                    flux[i] == 0,
            ;
        }
    }
}

/// A comb is not negative.
proof fn lemma_comb_not_negative(flux: Seq<u32>, lag: int, from: int)
    ensures
        comb_sum(flux, lag, from) >= 0,
    decreases left_from(flux.len(), from),
{
    if 0 <= from < flux.len() && lag > 0 {
        lemma_comb_not_negative(flux, lag, from + lag);
    }
}

/// A comb of the beat of a click track that starts off the beat gathers
/// nothing.
proof fn lemma_off_beat_comb(flux: Seq<u32>, beat: int, level: u32, from: int)
    requires
        beat >= 2,
        is_click_flux(flux, beat, level),
        from >= 0,
        from % beat != 0,
    ensures
        comb_sum(flux, beat, from) == 0,
    decreases left_from(flux.len(), from),
{
    if from < flux.len() {
        vstd::arithmetic::div_mod::lemma_mod_add_multiples_vanish(from, beat);
        lemma_off_beat_comb(flux, beat, level, from + beat);
    }
}

/// The tempo of a click track is the beat of its clicks, and its first beat
/// is its first click, at the start: for every click track of at least 111
/// frames with a beat between 15 and 54 frames, whose clicks are loud enough
/// for their squared level to be above the score floor.
pub proof fn law_click_track(env: Seq<u32>, beat: int, level: u32)
    requires
        MIN_LAG <= beat < MAX_LAG,
        env.len() >= MIN_FRAMES,
        level * level > SCORE_FLOOR,
        is_click_track(env, beat, level),
    ensures
        tempo_of(env) == Some(
            Tempo {
                beat_period: (beat * FRAME_MICROS) as i64,
                first_beat: 0,
                confidence: TEMPO_CONFIDENCE,
            },
        ),
{
    let flux = flux_of(env);
    let len = flux.len() as int;
    lemma_click_flux(env, beat, level);
    // The beat itself scores above the floor.
    vstd::arithmetic::div_mod::lemma_mod_self_0(beat);
    lemma_on_beat_scores(flux, beat, level, beat, len - beat);
    lemma_beats_grow(beat, beat + 1, len - beat);
    assert(beats_in(beat, beat + 1) >= 1) by {
        vstd::arithmetic::div_mod::lemma_mod_self_0(beat);
        lemma_beats_grow(beat, beat, beat);
    }
    let top = lag_score(flux, beat);
    assert(top >= level * level) by (nonlinear_arith)
        requires
            top == level * level * beats_in(beat, len - beat),
            beats_in(beat, len - beat) >= 1,
    ;
    // No beat length scores more, and none before it scores as much.
    assert forall|lag: int| MIN_LAG <= lag < MAX_LAG implies lag_score(flux, lag) <= top && (lag
        < beat ==> lag_score(flux, lag) < top) by {
        if lag % beat != 0 {
            lemma_off_beat_scores_nothing(flux, beat, level, lag, len - lag);
        } else {
            lemma_on_beat_scores(flux, beat, level, lag, len - lag);
            if lag < beat {
                vstd::arithmetic::div_mod::lemma_small_mod(lag as nat, beat as nat);
            } else {
                lemma_beats_grow(beat, len - lag, len - beat);
                assert(level * level * beats_in(beat, len - lag) <= level * level * beats_in(
                    beat,
                    len - beat,
                )) by (nonlinear_arith)
                    requires
                        beats_in(beat, len - lag) <= beats_in(beat, len - beat),
                ;
            }
        }
    }
    lemma_best_lag_range(flux, MAX_LAG as int);
    let best = best_lag(flux, MAX_LAG as int);
    law_best_lag(flux, MAX_LAG as int, beat);
    assert(best == beat);
    // The comb at the start gathers the clicks, and no other comb any.
    lemma_comb_not_negative(flux, beat, 2 * beat);
    assert(comb_sum(flux, beat, 0) >= level) by {
        vstd::arithmetic::div_mod::lemma_mod_self_0(beat);
        assert(flux[beat] == level);
        assert(comb_sum(flux, beat, beat) == flux[beat] + comb_sum(flux, beat, beat + beat));
        assert(comb_sum(flux, beat, 0) == flux[0] + comb_sum(flux, beat, 0 + beat));
    }
    assert(level > 0) by (nonlinear_arith)
        requires
            level * level > 0,
    ;
    lemma_best_phase_range(flux, beat, beat);
    let phase = best_phase(flux, beat, beat);
    law_best_phase(flux, beat, beat, 0);
    if phase > 0 {
        vstd::arithmetic::div_mod::lemma_small_mod(phase as nat, beat as nat);
        lemma_off_beat_comb(flux, beat, level, phase);
    }
    assert(phase == 0);
}

} // verus!
