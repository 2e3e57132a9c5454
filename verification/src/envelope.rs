//! Envelopes: the root mean square of each window of samples.
//!
//! A sample is a signed number of millionths of full scale.

use vstd::prelude::*;
use crate::analyzer::{band_share, share_of, AnalysisSegment, SegmentModel};
use crate::units::UNIT;

verus! {

/// Largest square of a sample.
pub const SQUARE_MAX: u128 = 0x4000_0000_0000_0000;

/// Whether `r` is the square root of `x`, rounded down.
pub open spec fn is_root(x: int, r: int) -> bool {
    r >= 0 && r * r <= x < (r + 1) * (r + 1)
}

/// The square root of `x`, rounded down.
pub open spec fn root_of(x: int) -> int {
    choose|r: int| is_root(x, r)
}

/// What an [`EnvelopeAccumulator`] holds.
pub struct AccumulatorModel {
    /// Sum of the squares of the samples of the window so far.
    pub sum_sq: int,
    /// Number of samples of the window so far.
    pub count: int,
    /// Number of samples in a window.
    pub window_size: int,
}

/// Gathers samples into windows and gives the root mean square of each
/// window as it fills.
pub struct EnvelopeAccumulator {
    sum_sq: u128,
    count: usize,
    window_size: usize,
}

/// The three accumulators of a segment: for the whole band, for the band
/// below 150 Hz, and for the band from 200 Hz to 3 kHz.
pub struct SegmentMeter {
    /// The whole band.
    pub full: EnvelopeAccumulator,
    /// The low band.
    pub low: EnvelopeAccumulator,
    /// The vocal band.
    pub vocal: EnvelopeAccumulator,
}

/// The accumulator after one more sample: the window with the sample in it,
/// or an empty window where that filled it.
pub open spec fn gathered(a: AccumulatorModel, sample: i32) -> AccumulatorModel {
    if a.count + 1 >= a.window_size {
        AccumulatorModel { sum_sq: 0, count: 0, ..a }
    } else {
        AccumulatorModel { sum_sq: a.sum_sq + sample * sample, count: a.count + 1, ..a }
    }
}

/// What one more sample makes the accumulator give: the root, rounded down,
/// of the mean of the squares of the window that the sample fills, and
/// nothing where it does not fill one.
pub open spec fn given(a: AccumulatorModel, sample: i32) -> Option<u32> {
    if a.count + 1 >= a.window_size {
        Some(root_of((a.sum_sq + sample * sample) / a.window_size) as u32)
    } else {
        None
    }
}

/// The segment with a level appended to an envelope, if there is one.
pub open spec fn with_level(envelope: Seq<u32>, level: Option<u32>) -> Seq<u32> {
    match level {
        Some(l) => envelope.push(l),
        None => envelope,
    }
}

/// The level that the share of the vocal band is taken of: the last level of
/// the envelope, or full scale before there is one.
pub open spec fn share_base(envelope: Seq<u32>) -> u32 {
    if envelope.len() > 0 {
        envelope.last()
    } else {
        UNIT
    }
}

/// The segment after three levels, each if there is one, are entered: the
/// level of the whole band and that of the low band are appended to their
/// envelopes, and the share that the level of the vocal band has in the
/// last level of the whole band is appended to the vocal ratios.
pub open spec fn entered(
    s: SegmentModel,
    full: Option<u32>,
    low: Option<u32>,
    vocal: Option<u32>,
) -> SegmentModel {
    let envelope = with_level(s.envelope, full);
    SegmentModel {
        envelope,
        low_envelope: with_level(s.low_envelope, low),
        vocal_ratio: match vocal {
            Some(v) => s.vocal_ratio.push(band_share(v, share_base(envelope))),
            None => s.vocal_ratio,
        },
    }
}

/// Squares grow with their roots.
proof fn lemma_square_grows(a: int, b: int)
    requires
        0 <= a <= b,
    ensures
        a * a <= b * b,
{
    assert(a * a <= b * b) by (nonlinear_arith)
        requires
            0 <= a <= b,
    ;
}

/// A number has one square root, rounded down.
pub proof fn lemma_root_unique(x: int, r: int)
    requires
        is_root(x, r),
    ensures
        root_of(x) == r,
{
    let other = root_of(x);
    if other < r {
        lemma_square_grows(other + 1, r);
    }
    if r < other {
        lemma_square_grows(r + 1, other);
    }
}

/// The square root of `x`, rounded down.
pub fn isqrt(x: u128) -> (r: u64)
    ensures
        r == root_of(x as int),
        is_root(x as int, r as int),
{
    let mut lo: u128 = 0;
    let mut hi: u128 = 0x1_0000_0000_0000_0000;
    assert(0x1_0000_0000_0000_0000int * 0x1_0000_0000_0000_0000int > x) by (nonlinear_arith)
        requires
            x <= 0xffff_ffff_ffff_ffff_ffff_ffff_ffff_ffff,
    ;
    while hi - lo > 1
        invariant
            lo < hi <= 0x1_0000_0000_0000_0000,
            lo * lo <= x < hi * hi,
        decreases hi - lo,
    {
        let mid: u128 = lo + (hi - lo) / 2;
        assert(mid * mid <= 0xffff_ffff_ffff_ffff * 0xffff_ffff_ffff_ffff) by (nonlinear_arith)
            requires
                0 <= mid <= 0xffff_ffff_ffff_ffff,
        ;
        if mid * mid <= x {
            lo = mid;
        } else {
            hi = mid;
        }
    }
    proof {
        lemma_root_unique(x as int, lo as int);
    }
    lo as u64
}

impl View for EnvelopeAccumulator {
    type V = AccumulatorModel;

    closed spec fn view(&self) -> AccumulatorModel {
        AccumulatorModel {
            sum_sq: self.sum_sq as int,
            count: self.count as int,
            window_size: self.window_size as int,
        }
    }
}

impl EnvelopeAccumulator {
    /// What holds of every accumulator: its window has at least one sample,
    /// is not yet full, and its sum is that of as many squares as it counts.
    #[verifier::type_invariant]
    spec fn well_formed(&self) -> bool {
        &&& self.window_size >= 1
        &&& self.count < self.window_size
        &&& self.sum_sq <= self.count * SQUARE_MAX
    }

    /// An accumulator with empty window of `window_size` samples.
    pub fn new(window_size: usize) -> (a: Self)
        requires
            window_size >= 1,
        ensures
            a@ == (AccumulatorModel { sum_sq: 0, count: 0, window_size: window_size as int }),
    {
        EnvelopeAccumulator { sum_sq: 0, count: 0, window_size }
    }

    /// Takes in a sample. When that fills the window, the root mean square
    /// of the window is returned and a new window begins.
    pub fn process(&mut self, sample: i32) -> (level: Option<u32>)
        ensures
            final(self)@ == gathered(old(self)@, sample),
            level == given(old(self)@, sample),
    {
        proof {
            use_type_invariant(&*self);
        }
        let wide: i64 = sample as i64;
        assert(0 <= wide * wide <= SQUARE_MAX) by (nonlinear_arith)
            requires
                -0x8000_0000 <= wide <= 0x7fff_ffff,
        ;
        let square: u128 = (wide * wide) as u128;
        let count: usize = self.count;
        let window_size: usize = self.window_size;
        assert(self.sum_sq + square <= (count + 1) * SQUARE_MAX <= 0x1_0000_0000_0000_0000
            * SQUARE_MAX) by (nonlinear_arith)
            requires
                self.sum_sq <= count * SQUARE_MAX,
                square <= SQUARE_MAX,
                0 <= count < 0xffff_ffff_ffff_ffff,
        ;
        let sum: u128 = self.sum_sq + square;
        if count + 1 >= window_size {
            let mean: u128 = sum / window_size as u128;
            assert(mean <= SQUARE_MAX) by (nonlinear_arith)
                requires
                    mean == sum / (window_size as u128),
                    window_size >= 1,
                    sum <= window_size * SQUARE_MAX,
            ;
            let root: u64 = isqrt(mean);
            proof {
                if root > 0x8000_0000 {
                    lemma_square_grows(0x8000_0001, root as int);
                }
            }
            *self = EnvelopeAccumulator { sum_sq: 0, count: 0, window_size };
            Some(root as u32)
        } else {
            *self = EnvelopeAccumulator { sum_sq: sum, count: count + 1, window_size };
            None
        }
    }
}

impl SegmentMeter {
    /// The accumulators of a segment with windows of `window_size` samples.
    pub fn new(window_size: usize) -> (m: Self)
        requires
            window_size >= 1,
        ensures
            m.full@ == (AccumulatorModel { sum_sq: 0, count: 0, window_size: window_size as int }),
            m.low@ == m.full@,
            m.vocal@ == m.full@,
    {
        SegmentMeter {
            full: EnvelopeAccumulator::new(window_size),
            low: EnvelopeAccumulator::new(window_size),
            vocal: EnvelopeAccumulator::new(window_size),
        }
    }

    /// Takes in one sample of each band. Each window that fills gives its
    /// level to the segment: the whole band and the low band to their
    /// envelopes, the vocal band as its share in the last level of the whole
    /// band to the vocal ratios.
    pub fn process(&mut self, segment: &mut AnalysisSegment, full: i32, low: i32, vocal: i32)
        ensures
            final(self).full@ == gathered(old(self).full@, full),
            final(self).low@ == gathered(old(self).low@, low),
            final(self).vocal@ == gathered(old(self).vocal@, vocal),
            final(segment)@ == entered(
                old(segment)@,
                given(old(self).full@, full),
                given(old(self).low@, low),
                given(old(self).vocal@, vocal),
            ),
    {
        let a: Option<u32> = self.full.process(full);
        let b: Option<u32> = self.low.process(low);
        let c: Option<u32> = self.vocal.process(vocal);
        match a {
            Some(level) => {
                segment.envelope.push(level);
            },
            None => {},
        }
        match b {
            Some(level) => {
                segment.low_envelope.push(level);
            },
            None => {},
        }
        match c {
            Some(level) => {
                let n: usize = segment.envelope.len();
                let base: u32 = if n > 0 {
                    segment.envelope[n - 1]
                } else {
                    UNIT
                };
                segment.vocal_ratio.push(share_of(level, base));
            },
            None => {},
        }
    }
}

} // verus!
