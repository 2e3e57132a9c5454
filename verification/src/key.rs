//! Musical key from a chroma vector, by correlation with the
//! Krumhansl-Schmuckler key profiles, and the layout of the spectral frames
//! that the chroma vector is gathered from.

use vstd::prelude::*;

verus! {

/// Samples in one spectral frame.
pub const FRAME_SIZE: usize = 4096;

/// Samples from the start of one spectral frame to the start of the next.
pub const FRAME_STEP: usize = 1024;

/// Lowest frequency that enters the chroma vector, in hertz.
pub const MIN_FREQ: u64 = 80;

/// Highest frequency that enters the chroma vector, in hertz.
pub const MAX_FREQ: u64 = 5000;

/// Confidence reported with every key found.
pub const KEY_CONFIDENCE: u32 = 800_000;

/// A key: the pitch class of its root (C is 0) and its mode (0 major, 1
/// minor).
#[derive(Clone, Copy, Debug, PartialEq, Eq)]
pub struct KeyEstimate {
    /// Pitch class of the root.
    pub root: i32,
    /// 0 for major, 1 for minor.
    pub mode: i32,
    /// Confidence in the key.
    pub confidence: u32,
}

/// The major key profile, in hundredths, from the root upwards.
pub open spec fn major_profile() -> Seq<int> {
    seq![635, 223, 348, 233, 438, 409, 252, 519, 239, 366, 229, 288]
}

/// The minor key profile, in hundredths, from the root upwards.
pub open spec fn minor_profile() -> Seq<int> {
    seq![633, 268, 352, 538, 260, 353, 254, 475, 398, 269, 334, 317]
}

/// Weight that the profile of `mode` gives to the pitch class `step`
/// semitones above the root.
pub open spec fn profile_weight(mode: int, step: int) -> int
    recommends
        0 <= step < 12,
{
    if mode == 0 {
        major_profile()[step]
    } else {
        minor_profile()[step]
    }
}

/// Sum over the first `n` pitch classes of the chroma value times the weight
/// that the profile of the key gives it.
pub open spec fn key_sum(chroma: Seq<u32>, root: int, mode: int, n: int) -> int
    decreases n,
{
    if n <= 0 {
        0
    } else {
        key_sum(chroma, root, mode, n - 1) + chroma[n - 1] * profile_weight(
            mode,
            (n - 1 + 12 - root) % 12,
        )
    }
}

/// How well the chroma vector fits a key: its dot product with the key's
/// profile.
pub open spec fn key_score(chroma: Seq<u32>, root: int, mode: int) -> int {
    key_sum(chroma, root, mode, 12)
}

/// Score of the `c`-th candidate key. The candidates run through the roots
/// from C upwards, major before minor for each root.
pub open spec fn candidate_score(chroma: Seq<u32>, c: int) -> int {
    key_score(chroma, c / 2, c % 2)
}

/// The candidate among the first `hi` with the largest score, the earliest of
/// them if several have it.
pub open spec fn best_candidate(chroma: Seq<u32>, hi: int) -> int
    decreases hi,
{
    if hi <= 1 {
        0
    } else {
        let b = best_candidate(chroma, hi - 1);
        if candidate_score(chroma, hi - 1) > candidate_score(chroma, b) {
            hi - 1
        } else {
            b
        }
    }
}

/// The key that fits a chroma vector best, if any key scores above zero.
pub open spec fn key_of(chroma: Seq<u32>) -> Option<KeyEstimate> {
    let b = best_candidate(chroma, 24);
    if candidate_score(chroma, b) > 0 {
        Some(KeyEstimate { root: (b / 2) as i32, mode: (b % 2) as i32, confidence: KEY_CONFIDENCE })
    } else {
        None
    }
}

/// How many whole spectral frames fit into `len` samples.
pub open spec fn frames_in(len: int) -> int {
    if len < FRAME_SIZE {
        0
    } else {
        (len - FRAME_SIZE) / (FRAME_STEP as int) + 1
    }
}

/// Whether spectral bin `bin` of a frame at `sample_rate` hertz lies in the
/// band that enters the chroma vector.
pub open spec fn in_band(bin: int, sample_rate: int) -> bool {
    MIN_FREQ * FRAME_SIZE <= bin * sample_rate <= MAX_FREQ * FRAME_SIZE
}

/// The best candidate is one of those looked at.
pub proof fn lemma_best_candidate_range(chroma: Seq<u32>, hi: int)
    requires
        hi >= 1,
    ensures
        0 <= best_candidate(chroma, hi) < hi,
    decreases hi,
{
    if hi > 1 {
        lemma_best_candidate_range(chroma, hi - 1);
    }
}

/// No candidate looked at scores higher than the best one, and none before it
/// scores as high.
pub proof fn law_best_candidate(chroma: Seq<u32>, hi: int, c: int)
    requires
        0 <= c < hi,
    ensures
        candidate_score(chroma, c) <= candidate_score(chroma, best_candidate(chroma, hi)),
        c < best_candidate(chroma, hi) ==> candidate_score(chroma, c) < candidate_score(
            chroma,
            best_candidate(chroma, hi),
        ),
    decreases hi,
{
    if hi > 1 {
        lemma_best_candidate_range(chroma, hi - 1);
        if c < hi - 1 {
            law_best_candidate(chroma, hi - 1, c);
        }
    }
}

/// How many whole spectral frames fit into `len` samples: one at every
/// multiple of the step that leaves room for a whole frame.
pub fn frame_count(len: usize) -> (n: usize)
    ensures
        n == frames_in(len as int),
        n > 0 ==> (n - 1) * FRAME_STEP + FRAME_SIZE <= len,
{
    if len < FRAME_SIZE {
        0
    } else {
        (len - FRAME_SIZE) / FRAME_STEP + 1
    }
}

/// Whether a spectral bin enters the chroma vector: its frequency,
/// `bin * sample_rate / 4096` hertz, lies between 80 and 5000 hertz.
pub fn bin_in_band(bin: usize, sample_rate: u32) -> (r: bool)
    ensures
        r == in_band(bin as int, sample_rate as int),
{
    assert(bin * sample_rate <= 0xffff_ffff_ffff_ffff * 0xffff_ffff) by (nonlinear_arith)
        requires
            0 <= bin <= 0xffff_ffff_ffff_ffff,
            0 <= sample_rate <= 0xffff_ffff,
    ;
    let scaled: u128 = bin as u128 * sample_rate as u128;
    let low: u128 = (MIN_FREQ * FRAME_SIZE as u64) as u128;
    let high: u128 = (MAX_FREQ * FRAME_SIZE as u64) as u128;
    low <= scaled && scaled <= high
}

/// Weight that the profile of `mode` gives to the pitch class `step`
/// semitones above the root.
pub fn weight(mode: i32, step: usize) -> (w: u64)
    requires
        step < 12,
    ensures
        w == profile_weight(mode as int, step as int),
        w <= 635,
{
    if mode == 0 {
        match step {
            0 => 635,
            1 => 223,
            2 => 348,
            3 => 233,
            4 => 438,
            5 => 409,
            6 => 252,
            7 => 519,
            8 => 239,
            9 => 366,
            10 => 229,
            _ => 288,
        }
    } else {
        match step {
            0 => 633,
            1 => 268,
            2 => 352,
            3 => 538,
            4 => 260,
            5 => 353,
            6 => 254,
            7 => 475,
            8 => 398,
            9 => 269,
            10 => 334,
            _ => 317,
        }
    }
}

/// How well the chroma vector fits the key with the given root and mode.
pub fn score_key(chroma: &[u32; 12], root: usize, mode: i32) -> (score: u64)
    requires
        root < 12,
    ensures
        score == key_score(chroma@, root as int, mode as int),
{
    let mut score: u64 = 0;
    let mut i: usize = 0;
    while i < 12
        invariant
            i <= 12,
            root < 12,
            score == key_sum(chroma@, root as int, mode as int, i as int),
            score <= i * 2_727_304_232_325,
        decreases 12 - i,
    {
        let w: u64 = weight(mode, (i + 12 - root) % 12);
        let c: u64 = chroma[i] as u64;
        assert(c * w <= 2_727_304_232_325) by (nonlinear_arith)
            requires
                0 <= c <= 0xffff_ffff,
                0 <= w <= 635,
        ;
        score = score + c * w;
        i += 1;
    }
    score
}

/// The key of a chroma vector: the root and mode whose profile, turned to
/// that root, has the largest dot product with the vector. Of several such
/// keys the one with the lowest root is taken, and major before minor. `None`
/// if no key scores above zero, which is so only for the zero vector.
pub fn detect_key(chroma: &[u32; 12]) -> (r: Option<KeyEstimate>)
    ensures
        r == key_of(chroma@),
        r is Some ==> 0 <= r->0.root < 12 && 0 <= r->0.mode <= 1,
{
    let mut best: usize = 0;
    let mut best_score: u64 = score_key(chroma, 0, 0);
    let mut c: usize = 1;
    while c < 24
        invariant
            1 <= c <= 24,
            best < c,
            best == best_candidate(chroma@, c as int),
            best_score == candidate_score(chroma@, best as int),
        decreases 24 - c,
    {
        let score: u64 = score_key(chroma, c / 2, (c % 2) as i32);
        if score > best_score {
            best = c;
            best_score = score;
        }
        c += 1;
    }
    if best_score > 0 {
        Some(
            KeyEstimate {
                root: (best / 2) as i32,
                mode: (best % 2) as i32,
                confidence: KEY_CONFIDENCE,
            },
        )
    } else {
        None
    }
}

} // verus!
