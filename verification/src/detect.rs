//! Structural landmarks read off the 50 Hz envelopes of a track: where the
//! sound starts and ends, where the energy jumps, where the vocals are, how
//! loud the outro is, and the coarse energy profile.

use vstd::prelude::*;
use crate::search::{first_set, last_set, lemma_first_set, lemma_first_set_step, lemma_last_set,
    lemma_last_set_step};
use crate::units::{max_int, min_int, opt_time, reach_ok, time_ok, FRAME_LIMIT, FRAME_MICROS,
    SLOT_MICROS, TIME_LIMIT};

verus! {

/// Level above which a frame counts as sound: -48 dB of full scale.
pub const SILENCE_LEVEL: u32 = 3_981;

/// Share of the band from 200 Hz to 3 kHz above which a frame may be vocal.
pub const VOCAL_RATIO_MIN: u32 = 400_000;

/// Level above which a frame may be vocal.
pub const VOCAL_LEVEL_MIN: u32 = 20_000;

/// Frames averaged after a candidate drop: two seconds.
pub const DROP_AFTER: usize = 100;

/// Frames averaged before a candidate drop: four seconds.
pub const DROP_BEFORE: usize = 200;

/// Sum of the frames before a candidate drop at which their mean is one
/// thousandth of full scale; a candidate needs more.
pub const DROP_FLOOR: u64 = 200_000;

/// Frames of the outro that its energy is taken over: ten seconds.
pub const OUTRO_FRAMES: usize = 500;

/// How far before the last vocal frame the last vocal entry is placed.
pub const VOCAL_LEAD: i64 = 5_000_000;

/// Whether a frame of this level counts as sound.
pub open spec fn is_loud(level: u32) -> bool {
    level > SILENCE_LEVEL
}

/// Whether a frame with this band share and level counts as vocal.
pub open spec fn is_vocal(ratio: u32, level: u32) -> bool {
    ratio > VOCAL_RATIO_MIN && level > VOCAL_LEVEL_MIN
}

/// For each frame of an envelope, whether it counts as sound.
pub open spec fn loud_marks(env: Seq<u32>) -> Seq<bool> {
    Seq::new(env.len(), |i: int| is_loud(env[i]))
}

/// For each frame that both sequences have, whether it counts as vocal.
pub open spec fn vocal_marks(ratio: Seq<u32>, env: Seq<u32>) -> Seq<bool> {
    Seq::new(
        min_int(ratio.len() as int, env.len() as int) as nat,
        |i: int| is_vocal(ratio[i], env[i]),
    )
}

/// Start of the first frame of the head that counts as sound; zero if none
/// does.
pub open spec fn fade_in_of(head: Seq<u32>) -> int {
    match first_set(loud_marks(head), 0, head.len() as int) {
        Some(i) => i * FRAME_MICROS,
        None => 0,
    }
}

/// Where a tail of `tail_len` frames starts in a track of the given
/// duration: it ends with the track, and does not start before it.
pub open spec fn tail_start_of(duration: int, tail_len: int) -> int {
    max_int(duration - tail_len * FRAME_MICROS, 0)
}

/// Where the sound ends. Without a tail: the start of the last frame of the
/// head that counts as sound. With a tail: the end of the last such frame of
/// the tail. The duration if no frame counts as sound.
pub open spec fn fade_out_of(head: Seq<u32>, tail: Seq<u32>, duration: int) -> int {
    if tail.len() == 0 {
        match last_set(loud_marks(head), 0, head.len() as int) {
            Some(i) => i * FRAME_MICROS,
            None => duration,
        }
    } else {
        match last_set(loud_marks(tail), 0, tail.len() as int) {
            Some(i) => tail_start_of(duration, tail.len() as int) + (i + 1) * FRAME_MICROS,
            None => duration,
        }
    }
}

/// Index of the first frame of `env` that counts as sound.
pub fn first_loud(env: &[u32]) -> (r: Option<usize>)
    ensures
        match r {
            Some(i) => i < env.len() && first_set(loud_marks(env@), 0, env.len() as int) == Some(
                i as int,
            ),
            None => first_set(loud_marks(env@), 0, env.len() as int) is None,
        },
{
    let n: usize = env.len();
    let mut i: usize = 0;
    while i < n
        invariant
            i <= n,
            n == env.len(),
            first_set(loud_marks(env@), 0, n as int) == first_set(
                loud_marks(env@),
                i as int,
                n as int,
            ),
        decreases n - i,
    {
        if env[i] > SILENCE_LEVEL {
            return Some(i);
        }
        proof {
            lemma_first_set_step(loud_marks(env@), i as int, n as int);
        }
        i += 1;
    }
    None
}

/// Index of the last frame of `env` that counts as sound.
pub fn last_loud(env: &[u32]) -> (r: Option<usize>)
    ensures
        match r {
            Some(i) => i < env.len() && last_set(loud_marks(env@), 0, env.len() as int) == Some(
                i as int,
            ),
            None => last_set(loud_marks(env@), 0, env.len() as int) is None,
        },
{
    let n: usize = env.len();
    let mut j: usize = n;
    while j > 0
        invariant
            j <= n,
            n == env.len(),
            last_set(loud_marks(env@), 0, n as int) == last_set(loud_marks(env@), 0, j as int),
        decreases j,
    {
        if env[j - 1] > SILENCE_LEVEL {
            return Some(j - 1);
        }
        proof {
            lemma_last_set_step(loud_marks(env@), 0, j as int);
        }
        j -= 1;
    }
    None
}

/// Where the sound of a track starts and where it ends, from the envelope of
/// its head and that of its tail, which is empty if the tail was not read.
pub fn detect_silence(head: &[u32], tail: &[u32], duration: i64) -> (r: (i64, i64))
    requires
        head.len() <= FRAME_LIMIT,
        tail.len() <= FRAME_LIMIT,
        time_ok(duration as int),
    ensures
        r.0 == fade_in_of(head@),
        r.1 == fade_out_of(head@, tail@, duration as int),
        0 <= r.0 <= TIME_LIMIT,
        0 <= r.1 <= 2 * TIME_LIMIT,
{
    let fade_in: i64 = match first_loud(head) {
        Some(i) => i as i64 * FRAME_MICROS,
        None => 0,
    };
    let fade_out: i64 = if tail.len() == 0 {
        match last_loud(head) {
            Some(i) => i as i64 * FRAME_MICROS,
            None => duration,
        }
    } else {
        let tail_span: i64 = tail.len() as i64 * FRAME_MICROS;
        let tail_start: i64 = if duration - tail_span > 0 {
            duration - tail_span
        } else {
            0
        };
        match last_loud(tail) {
            Some(i) => tail_start + (i as i64 + 1) * FRAME_MICROS,
            None => duration,
        }
    };
    (fade_in, fade_out)
}

/// Sum of the frames of `env` in `[lo, hi)`.
pub open spec fn window_sum(env: Seq<u32>, lo: int, hi: int) -> int
    decreases hi - lo,
{
    if lo >= hi {
        0
    } else {
        window_sum(env, lo, hi - 1) + env[hi - 1]
    }
}

/// Sum of the squares of the frames of `env` in `[lo, hi)`.
pub open spec fn square_sum(env: Seq<u32>, lo: int, hi: int) -> int
    decreases hi - lo,
{
    if lo >= hi {
        0
    } else {
        square_sum(env, lo, hi - 1) + env[hi - 1] * env[hi - 1]
    }
}

/// Sum of the four seconds of envelope before frame `i`.
pub open spec fn level_before(env: Seq<u32>, i: int) -> int {
    window_sum(env, i - DROP_BEFORE, i)
}

/// Sum of the two seconds of envelope from frame `i` on.
pub open spec fn level_after(env: Seq<u32>, i: int) -> int {
    window_sum(env, i, i + DROP_AFTER)
}

/// Whether frame `i` may be a drop: the mean level before it is above one
/// thousandth of full scale.
pub open spec fn drop_candidate(env: Seq<u32>, i: int) -> bool {
    level_before(env, i) > DROP_FLOOR
}

/// Whether the level rises by a larger factor at frame `i` than at frame
/// `j`, the factor being the mean level after the frame over the mean level
/// before it.
pub open spec fn steeper(env: Seq<u32>, i: int, j: int) -> bool {
    level_after(env, i) * level_before(env, j) > level_after(env, j) * level_before(env, i)
}

/// The candidate in `[lo, hi)` at which the level rises by the largest
/// factor, the earliest of them if several do; `None` if there is no
/// candidate after which there is any sound.
pub open spec fn steepest(env: Seq<u32>, lo: int, hi: int) -> Option<int>
    decreases hi - lo,
{
    if lo >= hi {
        None
    } else {
        let earlier = steepest(env, lo, hi - 1);
        let i = hi - 1;
        if !drop_candidate(env, i) {
            earlier
        } else {
            match earlier {
                None => if level_after(env, i) > 0 {
                    Some(i)
                } else {
                    None
                },
                Some(b) => if steeper(env, i, b) {
                    Some(i)
                } else {
                    earlier
                },
            }
        }
    }
}

/// Whether the mean level after frame `i` is more than one and a half times
/// the mean level before it.
pub open spec fn is_drop(env: Seq<u32>, i: int) -> bool {
    4 * level_after(env, i) > 3 * level_before(env, i)
}

/// Start of the frame at which the level rises most, if it rises by more than
/// half there. Frames with less than four seconds before them or less than
/// two seconds from them on are not looked at.
pub open spec fn drop_of(env: Seq<u32>) -> Option<int> {
    if env.len() < 2 * DROP_AFTER {
        None
    } else {
        match steepest(env, DROP_BEFORE as int, env.len() - DROP_AFTER) {
            Some(b) => if is_drop(env, b) {
                Some(b * FRAME_MICROS)
            } else {
                None
            },
            None => None,
        }
    }
}

/// Frame that holds the time `t`; frame 0 for a time before the start.
pub open spec fn frame_at(t: int) -> int {
    if t <= 0 {
        0
    } else {
        t / (FRAME_MICROS as int)
    }
}

/// Frame whose start is nearest to the time `t`, the later one at a tie;
/// frame 0 for a time before the start.
pub open spec fn frame_near(t: int) -> int {
    if t <= 0 {
        0
    } else {
        (t + FRAME_MICROS / 2) / (FRAME_MICROS as int)
    }
}

/// Start of the first vocal frame of the head at or after the fade-in.
pub open spec fn vocal_in_of(head_env: Seq<u32>, head_ratio: Seq<u32>, fade_in: int) -> Option<
    int,
> {
    let marks = vocal_marks(head_ratio, head_env);
    match first_set(marks, frame_at(fade_in), marks.len() as int) {
        Some(i) => Some(i * FRAME_MICROS),
        None => None,
    }
}

/// Start of the last vocal frame before the fade-out: of the tail if there is
/// one, else of the head.
pub open spec fn vocal_out_of(
    head_env: Seq<u32>,
    head_ratio: Seq<u32>,
    tail_env: Seq<u32>,
    tail_ratio: Seq<u32>,
    duration: int,
    fade_out: int,
) -> Option<int> {
    let marks = if tail_env.len() > 0 {
        vocal_marks(tail_ratio, tail_env)
    } else {
        vocal_marks(head_ratio, head_env)
    };
    let base = if tail_env.len() > 0 {
        tail_start_of(duration, tail_env.len() as int)
    } else {
        0
    };
    let limit = min_int(frame_near(fade_out - base), marks.len() as int);
    match last_set(marks, 0, limit) {
        Some(i) => Some(base + i * FRAME_MICROS),
        None => None,
    }
}

/// Where the last vocal entry is placed: five seconds before the last vocal
/// frame, but not before the fade-in.
pub open spec fn vocal_last_in_of(vocal_out: Option<int>, fade_in: int) -> Option<int> {
    match vocal_out {
        Some(t) => Some(max_int(t - VOCAL_LEAD, fade_in)),
        None => None,
    }
}

/// Frame at which the outro ends: the last frame of the tail that counts as
/// sound, or the end of the tail if none does.
pub open spec fn outro_end(tail: Seq<u32>) -> int {
    match last_set(loud_marks(tail), 0, tail.len() as int) {
        Some(i) => i,
        None => tail.len() as int,
    }
}

/// Mean square, rounded down, of the up to ten seconds of tail before the
/// outro's end; `None` if the tail is empty or ends at its first frame.
pub open spec fn outro_energy_of(tail: Seq<u32>) -> Option<int> {
    let end = outro_end(tail);
    let start = max_int(end - OUTRO_FRAMES, 0);
    if end <= start {
        None
    } else {
        Some(square_sum(tail, start, end) / (end - start))
    }
}

/// Slot of the energy profile that holds the time `t`.
pub open spec fn slot_at(t: int) -> int {
    t / (SLOT_MICROS as int)
}

/// What slot `slot` of the profile holds once the first `n` frames of an
/// envelope that starts at `start` are entered: the largest of what it held
/// before and the frames that start in it.
pub open spec fn peak_in_slot(held: u32, env: Seq<u32>, start: int, slot: int, n: int) -> u32
    decreases n,
{
    if n <= 0 {
        held
    } else {
        let before = peak_in_slot(held, env, start, slot, n - 1);
        if slot_at(start + (n - 1) * FRAME_MICROS) == slot && env[n - 1] > before {
            env[n - 1]
        } else {
            before
        }
    }
}

/// Adds up the frames of `env` in `[lo, hi)`.
pub fn sum_window(env: &[u32], lo: usize, hi: usize) -> (s: u64)
    requires
        lo <= hi <= env.len(),
        hi - lo <= 0x1_0000,
    ensures
        s == window_sum(env@, lo as int, hi as int),
        s <= (hi - lo) * 0xffff_ffff,
{
    let mut s: u64 = 0;
    let mut k: usize = lo;
    while k < hi
        invariant
            lo <= k <= hi <= env.len(),
            hi - lo <= 0x1_0000,
            s == window_sum(env@, lo as int, k as int),
            s <= (k - lo) * 0xffff_ffff,
        decreases hi - k,
    {
        s = s + env[k] as u64;
        k += 1;
    }
    s
}

/// Where the energy of the track jumps: the start of the frame at which the
/// mean level of the two seconds from it on, over that of the four seconds
/// before it, is largest, provided it is more than one and a half.
pub fn detect_drop(envelope: &[u32]) -> (r: Option<i64>)
    requires
        envelope.len() <= FRAME_LIMIT,
    ensures
        match r {
            Some(t) => drop_of(envelope@) == Some(t as int) && 0 <= t <= TIME_LIMIT,
            None => drop_of(envelope@) is None,
        },
{
    let n: usize = envelope.len();
    if n < 2 * DROP_AFTER {
        return None;
    }
    let end: usize = n - DROP_AFTER;
    if end <= DROP_BEFORE {
        return None;
    }
    let mut found: bool = false;
    let mut best: usize = 0;
    let mut best_before: u64 = 1;
    let mut best_after: u64 = 0;
    let mut i: usize = DROP_BEFORE;
    while i < end
        invariant
            n == envelope.len(),
            n <= FRAME_LIMIT,
            end == n - DROP_AFTER,
            DROP_BEFORE <= i <= end,
            found == (steepest(envelope@, DROP_BEFORE as int, i as int) is Some),
            found ==> steepest(envelope@, DROP_BEFORE as int, i as int) == Some(best as int),
            found ==> DROP_BEFORE <= best < i,
            found ==> best_before == level_before(envelope@, best as int),
            found ==> best_after == level_after(envelope@, best as int),
            best_before <= DROP_BEFORE * 0xffff_ffff,
            best_after <= DROP_AFTER * 0xffff_ffff,
        decreases end - i,
    {
        let before: u64 = sum_window(envelope, i - DROP_BEFORE, i);
        let after: u64 = sum_window(envelope, i, i + DROP_AFTER);
        if before > DROP_FLOOR {
            let replaces: bool = if found {
                assert(after * best_before <= 0xffff_ffff_ffff_ffff_ffff) by (nonlinear_arith)
                    requires
                        after <= 100 * 0xffff_ffff,
                        best_before <= 200 * 0xffff_ffff,
                ;
                assert(best_after * before <= 0xffff_ffff_ffff_ffff_ffff) by (nonlinear_arith)
                    requires
                        best_after <= 100 * 0xffff_ffff,
                        before <= 200 * 0xffff_ffff,
                ;
                after as u128 * best_before as u128 > best_after as u128 * before as u128
            } else {
                after > 0
            };
            if replaces {
                found = true;
                best = i;
                best_before = before;
                best_after = after;
            }
        }
        i += 1;
    }
    if !found {
        return None;
    }
    if 4 * best_after as u128 > 3 * best_before as u128 {
        Some(best as i64 * FRAME_MICROS)
    } else {
        None
    }
}

/// Index of the first vocal frame at or after `from`.
pub fn first_vocal(ratio: &[u32], env: &[u32], from: usize) -> (r: Option<usize>)
    ensures
        match r {
            Some(i) => i < ratio.len() && i < env.len() && first_set(
                vocal_marks(ratio@, env@),
                from as int,
                vocal_marks(ratio@, env@).len() as int,
            ) == Some(i as int),
            None => first_set(
                vocal_marks(ratio@, env@),
                from as int,
                vocal_marks(ratio@, env@).len() as int,
            ) is None,
        },
{
    let n: usize = if ratio.len() <= env.len() {
        ratio.len()
    } else {
        env.len()
    };
    let ghost marks = vocal_marks(ratio@, env@);
    let mut i: usize = from;
    while i < n
        invariant
            from <= i,
            n == marks.len(),
            n <= ratio.len(),
            n <= env.len(),
            marks == vocal_marks(ratio@, env@),
            first_set(marks, from as int, n as int) == first_set(marks, i as int, n as int),
        decreases n - i,
    {
        if ratio[i] > VOCAL_RATIO_MIN && env[i] > VOCAL_LEVEL_MIN {
            return Some(i);
        }
        proof {
            lemma_first_set_step(marks, i as int, n as int);
        }
        i += 1;
    }
    None
}

/// Index of the last vocal frame before `limit`.
pub fn last_vocal(ratio: &[u32], env: &[u32], limit: usize) -> (r: Option<usize>)
    ensures
        match r {
            Some(i) => i < ratio.len() && i < env.len() && i < limit && last_set(
                vocal_marks(ratio@, env@),
                0,
                min_int(limit as int, vocal_marks(ratio@, env@).len() as int),
            ) == Some(i as int),
            None => last_set(
                vocal_marks(ratio@, env@),
                0,
                min_int(limit as int, vocal_marks(ratio@, env@).len() as int),
            ) is None,
        },
{
    let shorter: usize = if ratio.len() <= env.len() {
        ratio.len()
    } else {
        env.len()
    };
    let n: usize = if limit <= shorter {
        limit
    } else {
        shorter
    };
    let ghost marks = vocal_marks(ratio@, env@);
    let mut j: usize = n;
    while j > 0
        invariant
            j <= n,
            n == min_int(limit as int, marks.len() as int),
            n <= ratio.len(),
            n <= env.len(),
            marks == vocal_marks(ratio@, env@),
            last_set(marks, 0, n as int) == last_set(marks, 0, j as int),
        decreases j,
    {
        if ratio[j - 1] > VOCAL_RATIO_MIN && env[j - 1] > VOCAL_LEVEL_MIN {
            return Some(j - 1);
        }
        proof {
            lemma_last_set_step(marks, 0, j as int);
        }
        j -= 1;
    }
    None
}

/// Where the vocals come in, where they end, and where the last vocal entry
/// is placed: the first vocal frame of the head from the fade-in on, the
/// last vocal frame before the fade-out (of the tail, or of the head where
/// the tail was not read), and five seconds before that, but not before the
/// fade-in.
pub fn detect_vocals(
    head_env: &[u32],
    head_ratio: &[u32],
    tail_env: &[u32],
    tail_ratio: &[u32],
    duration: i64,
    fade_in: i64,
    fade_out: i64,
) -> (r: (Option<i64>, Option<i64>, Option<i64>))
    requires
        head_env.len() <= FRAME_LIMIT,
        tail_env.len() <= FRAME_LIMIT,
        time_ok(duration as int),
        reach_ok(fade_in as int),
        reach_ok(fade_out as int),
    ensures
        opt_time(r.0) == vocal_in_of(head_env@, head_ratio@, fade_in as int),
        opt_time(r.1) == vocal_out_of(
            head_env@,
            head_ratio@,
            tail_env@,
            tail_ratio@,
            duration as int,
            fade_out as int,
        ),
        opt_time(r.2) == vocal_last_in_of(opt_time(r.1), fade_in as int),
        r.0 is Some ==> 0 <= r.0->0 <= TIME_LIMIT,
        r.1 is Some ==> 0 <= r.1->0 <= 2 * TIME_LIMIT,
        r.2 is Some ==> reach_ok(r.2->0 as int),
{
    let skip: usize = if fade_in <= 0 {
        0
    } else {
        (fade_in / FRAME_MICROS) as usize
    };
    let vocal_in: Option<i64> = match first_vocal(head_ratio, head_env, skip) {
        Some(i) => Some(i as i64 * FRAME_MICROS),
        None => None,
    };
    let with_tail: bool = tail_env.len() > 0;
    let base: i64 = if with_tail {
        let tail_span: i64 = tail_env.len() as i64 * FRAME_MICROS;
        if duration - tail_span > 0 {
            duration - tail_span
        } else {
            0
        }
    } else {
        0
    };
    let reach: i64 = fade_out - base;
    let limit: usize = if reach <= 0 {
        0
    } else {
        ((reach + FRAME_MICROS / 2) / FRAME_MICROS) as usize
    };
    let found: Option<usize> = if with_tail {
        last_vocal(tail_ratio, tail_env, limit)
    } else {
        last_vocal(head_ratio, head_env, limit)
    };
    let vocal_out: Option<i64> = match found {
        Some(i) => Some(base + i as i64 * FRAME_MICROS),
        None => None,
    };
    let vocal_last_in: Option<i64> = match vocal_out {
        Some(t) => Some(
            if t - VOCAL_LEAD >= fade_in {
                t - VOCAL_LEAD
            } else {
                fade_in
            },
        ),
        None => None,
    };
    (vocal_in, vocal_out, vocal_last_in)
}

/// Mean square of the outro: of the up to ten seconds of tail that end where
/// its last frame of sound starts, or that end the tail if it holds no sound.
/// `None` if the tail is empty or that window is.
pub fn calculate_outro_energy(tail: &[u32]) -> (r: Option<u64>)
    ensures
        match r {
            Some(e) => outro_energy_of(tail@) == Some(e as int),
            None => outro_energy_of(tail@) is None,
        },
{
    if tail.len() == 0 {
        return None;
    }
    let end: usize = match last_loud(tail) {
        Some(i) => i,
        None => tail.len(),
    };
    let start: usize = if end >= OUTRO_FRAMES {
        end - OUTRO_FRAMES
    } else {
        0
    };
    if end <= start {
        return None;
    }
    let mut sum: u128 = 0;
    let mut k: usize = start;
    while k < end
        invariant
            start <= k <= end <= tail.len(),
            end - start <= OUTRO_FRAMES,
            sum == square_sum(tail@, start as int, k as int),
            sum <= (k - start) * 0xffff_fffe_0000_0001,
        decreases end - k,
    {
        let x: u128 = tail[k] as u128;
        assert(x * x <= 0xffff_fffe_0000_0001) by (nonlinear_arith)
            requires
                0 <= x <= 0xffff_ffff,
        ;
        sum = sum + x * x;
        k += 1;
    }
    let count: u128 = (end - start) as u128;
    assert(sum / count <= 0xffff_fffe_0000_0001) by (nonlinear_arith)
        requires
            count > 0,
            sum <= count * 0xffff_fffe_0000_0001,
    ;
    Some((sum / count) as u64)
}

/// Enters an envelope that starts at `start_time` into the energy profile:
/// each slot keeps the largest of what it held and the frames that start in
/// it. Frames past the end of the profile are left out.
pub fn fill_energy_profile(profile: &mut Vec<u32>, envelope: &[u32], start_time: i64)
    requires
        envelope.len() <= FRAME_LIMIT,
        time_ok(start_time as int),
    ensures
        final(profile).len() == old(profile).len(),
        forall|k: int|
            0 <= k < old(profile).len() ==> #[trigger] final(profile)[k] == peak_in_slot(
                old(profile)[k],
                envelope@,
                start_time as int,
                k,
                envelope.len() as int,
            ),
{
    let n: usize = envelope.len();
    let mut i: usize = 0;
    while i < n
        invariant
            i <= n,
            n == envelope.len(),
            n <= FRAME_LIMIT,
            time_ok(start_time as int),
            profile.len() == old(profile).len(),
            forall|k: int|
                0 <= k < old(profile).len() ==> #[trigger] profile[k] == peak_in_slot(
                    old(profile)[k],
                    envelope@,
                    start_time as int,
                    k,
                    i as int,
                ),
        decreases n - i,
    {
        let time: i64 = start_time + i as i64 * FRAME_MICROS;
        let slot: i64 = time / SLOT_MICROS;
        if (slot as u64) < profile.len() as u64 {
            let idx: usize = slot as usize;
            if envelope[i] > profile[idx] {
                profile[idx] = envelope[i];
            }
        }
        i += 1;
    }
}

/// Where the frames of the head and of the tail fit into the track one after
/// the other, the sound does not start before the track does, does not end
/// after the track does, and does not end before it starts.
pub proof fn law_fades_ordered(head: Seq<u32>, tail: Seq<u32>, duration: int)
    requires
        (head.len() + tail.len()) * FRAME_MICROS <= duration,
    ensures
        0 <= fade_in_of(head) <= fade_out_of(head, tail, duration) <= duration,
{
    lemma_first_set(loud_marks(head), 0, head.len() as int);
    lemma_last_set(loud_marks(head), 0, head.len() as int);
    lemma_last_set(loud_marks(tail), 0, tail.len() as int);
}

/// The sound never starts before the track does, and never ends before it.
pub proof fn lemma_fades_not_negative(head: Seq<u32>, tail: Seq<u32>, duration: int)
    requires
        duration >= 0,
    ensures
        0 <= fade_in_of(head),
        0 <= fade_out_of(head, tail, duration),
{
    lemma_first_set(loud_marks(head), 0, head.len() as int);
    lemma_last_set(loud_marks(head), 0, head.len() as int);
    lemma_last_set(loud_marks(tail), 0, tail.len() as int);
}

/// The vocals never end before the track starts.
pub proof fn lemma_vocal_out_not_negative(
    head_env: Seq<u32>,
    head_ratio: Seq<u32>,
    tail_env: Seq<u32>,
    tail_ratio: Seq<u32>,
    duration: int,
    fade_out: int,
)
    ensures
        match vocal_out_of(head_env, head_ratio, tail_env, tail_ratio, duration, fade_out) {
            Some(t) => t >= 0,
            None => true,
        },
{
    let marks = if tail_env.len() > 0 {
        vocal_marks(tail_ratio, tail_env)
    } else {
        vocal_marks(head_ratio, head_env)
    };
    let base = if tail_env.len() > 0 {
        tail_start_of(duration, tail_env.len() as int)
    } else {
        0
    };
    lemma_last_set(marks, 0, min_int(frame_near(fade_out - base), marks.len() as int));
}

/// A sum of frames is not negative.
pub proof fn lemma_window_sum_not_negative(env: Seq<u32>, lo: int, hi: int)
    ensures
        window_sum(env, lo, hi) >= 0,
    decreases hi - lo,
{
    if lo < hi {
        lemma_window_sum_not_negative(env, lo, hi - 1);
    }
}

/// Of three rises, each a level after over a positive level before: if the
/// first is at most the second and the second less than the third, the
/// first is less than the third.
proof fn lemma_rise_chain(a1: int, b1: int, a2: int, b2: int, a3: int, b3: int)
    requires
        b1 > 0,
        b2 > 0,
        b3 > 0,
        a1 * b2 <= a2 * b1,
        a2 * b3 < a3 * b2,
    ensures
        a1 * b3 < a3 * b1,
{
    assert((a1 * b2) * b3 <= (a2 * b1) * b3) by (nonlinear_arith)
        requires
            a1 * b2 <= a2 * b1,
            b3 > 0,
    ;
    assert((a2 * b3) * b1 < (a3 * b2) * b1) by (nonlinear_arith)
        requires
            a2 * b3 < a3 * b2,
            b1 > 0,
    ;
    assert((a1 * b3) * b2 == (a1 * b2) * b3) by (nonlinear_arith);
    assert((a2 * b1) * b3 == (a2 * b3) * b1) by (nonlinear_arith);
    assert((a3 * b2) * b1 == (a3 * b1) * b2) by (nonlinear_arith);
    assert(a1 * b3 < a3 * b1) by (nonlinear_arith)
        requires
            (a1 * b3) * b2 < (a3 * b1) * b2,
            b2 > 0,
    ;
}

/// What `steepest` names: a candidate after which there is sound, at which
/// the level rises by a factor that no candidate exceeds and no earlier
/// candidate reaches. It names none only where no candidate has sound after
/// it.
pub proof fn law_steepest(env: Seq<u32>, lo: int, hi: int)
    ensures
        match steepest(env, lo, hi) {
            Some(b) => {
                &&& lo <= b < hi
                &&& drop_candidate(env, b)
                &&& level_after(env, b) > 0
                &&& forall|i: int|
                    lo <= i < hi && drop_candidate(env, i) ==> !#[trigger] steeper(env, i, b)
                &&& forall|i: int|
                    lo <= i < b && drop_candidate(env, i) ==> #[trigger] steeper(env, b, i)
            },
            None => forall|i: int|
                lo <= i < hi && #[trigger] drop_candidate(env, i) ==> level_after(env, i) == 0,
        },
    decreases hi - lo,
{
    if lo < hi {
        law_steepest(env, lo, hi - 1);
        let earlier = steepest(env, lo, hi - 1);
        let i = hi - 1;
        lemma_window_sum_not_negative(env, i, i + DROP_AFTER);
        if drop_candidate(env, i) {
            let ai = level_after(env, i);
            let bi = level_before(env, i);
            match earlier {
                None => {
                    if ai > 0 {
                        assert forall|j: int|
                            lo <= j < hi && drop_candidate(env, j) implies !steeper(env, j, i) by {
                            if j < i {
                                assert(ai * level_before(env, j) >= 0) by (nonlinear_arith)
                                    requires
                                        ai > 0,
                                        level_before(env, j) > 0,
                                ;
                            }
                        }
                        assert forall|j: int|
                            lo <= j < i && drop_candidate(env, j) implies steeper(env, i, j) by {
                            assert(ai * level_before(env, j) > 0) by (nonlinear_arith)
                                requires
                                    ai > 0,
                                    level_before(env, j) > 0,
                            ;
                        }
                    }
                },
                Some(b) => {
                    let ab = level_after(env, b);
                    let bb = level_before(env, b);
                    if steeper(env, i, b) {
                        assert(ai > 0) by (nonlinear_arith)
                            requires
                                ai * bb > ab * bi,
                                ab > 0,
                                bi > 0,
                                bb > 0,
                                ai >= 0,
                        ;
                        assert forall|j: int|
                            lo <= j < i && drop_candidate(env, j) implies steeper(env, i, j) by {
                            assert(!steeper(env, j, b));
                            lemma_rise_chain(
                                level_after(env, j),
                                level_before(env, j),
                                ab,
                                bb,
                                ai,
                                bi,
                            );
                        }
                    }
                },
            }
        }
    }
}

} // verus!
