//! The transition planner: from the analyses of the track that plays and of
//! the track that follows, a proposal of how to mix from one into the other.

use vstd::prelude::*;
use vstd::string::*;
use crate::analyzer::{fresh_analyzer, or_else, AnalysisModel, AudioAnalysis, TrackAnalyzer};
use crate::camelot::{camelot_compatible, is_camelot_compatible};
use crate::text::{decimal, decimal_string, opt_text, opt_view};
use crate::units::{max_int, PERIOD_LIMIT, SPAN_LIMIT, UNIT};

verus! {

/// Beat length taken for a track without a tempo: 128 beats per minute.
pub const DEFAULT_PERIOD: i64 = 468_750;

/// Length of the intro taken for a track without vocals.
pub const INTRO_DEFAULT: i64 = 30_000_000;

/// How far before the centre of the mix window a transition may start.
pub const MIX_LOOKBACK: i64 = 30_000_000;

/// How long before its end the long mix leaves the current track.
pub const LONG_MIX_TAIL: i64 = 5_000_000;

/// Bars of the long mix.
pub const LONG_MIX_BARS: i64 = 32;

/// Bars of the bass swap that is fallen back on.
pub const BASS_SWAP_BARS: i64 = 16;

/// Bars of the echo-out that is fallen back on last.
pub const ECHO_OUT_BARS: i64 = 4;

/// How much of the next track is analysed for a transition.
pub const NEXT_WINDOW: i64 = 120_000_000;

/// How much of the next track is analysed for a long mix.
pub const NEXT_WINDOW_LONG: i64 = 180_000_000;

/// Number of mix strategies.
pub const STRATEGY_COUNT: usize = 6;

/// Score of a proposal that follows one of the strategies.
pub const SCORE_STRATEGY: u32 = 900_000;

/// Score of the bass swap that is fallen back on.
pub const SCORE_BASS_SWAP: u32 = 700_000;

/// Score of the echo-out that is fallen back on last.
pub const SCORE_ECHO_OUT: u32 = 500_000;

/// A way of mixing two tracks.
#[derive(Clone, Copy, Debug)]
pub struct MixStrategy {
    /// Name of the strategy.
    pub name: &'static str,
    /// What is done to the frequency bands.
    pub filter: &'static str,
    /// Length of the mix in bars.
    pub bars: u32,
    /// Whether the keys of the two tracks have to be compatible.
    pub req_key: bool,
    /// Whether the tempos of the two tracks have to be compatible.
    pub req_bpm: bool,
}

/// A proposal of how to mix from the current track into the next.
pub struct TransitionProposal {
    /// Length of the mix.
    pub duration: i64,
    /// Where in the current track the mix starts.
    pub current_track_mix_out: i64,
    /// Where in the next track the mix starts.
    pub next_track_mix_in: i64,
    /// Name of the mix, with its length in bars where it follows a strategy.
    pub mix_type: String,
    /// What is done to the frequency bands.
    pub filter_strategy: String,
    /// How well the tracks suit the mix.
    pub compatibility_score: u32,
    /// Whether the keys of the two tracks are compatible.
    pub key_compatible: bool,
    /// Whether the tempos of the two tracks are compatible.
    pub bpm_compatible: bool,
}

/// One point of an automation curve.
#[derive(Clone, Copy, Debug, PartialEq, Eq)]
pub struct AutomationPoint {
    /// Time from the start of the mix.
    pub time_offset: i64,
    /// Volume.
    pub volume: u32,
    /// How far the low band is cut.
    pub low_cut: u32,
    /// How far the high band is cut.
    pub high_cut: u32,
}

/// A long mix with a bass swap, and the automation curves of both tracks.
pub struct AdvancedTransition {
    /// Where in the current track the mix starts.
    pub start_time_current: i64,
    /// Where in the next track the mix starts.
    pub start_time_next: i64,
    /// Length of the mix.
    pub duration: i64,
    /// Pitch shift of the next track in semitones.
    pub pitch_shift_semitones: i32,
    /// Rate at which the next track is played, in millionths.
    pub playback_rate: u64,
    /// Automation curve of the current track.
    pub automation_current: Vec<AutomationPoint>,
    /// Automation curve of the next track.
    pub automation_next: Vec<AutomationPoint>,
    /// Name of the mix.
    pub strategy: String,
}

/// What a [`MixStrategy`] holds.
pub struct StrategyModel {
    /// Name of the strategy.
    pub name: Seq<char>,
    /// What is done to the frequency bands.
    pub filter: Seq<char>,
    /// Length of the mix in bars.
    pub bars: int,
    /// Whether the keys have to be compatible.
    pub req_key: bool,
    /// Whether the tempos have to be compatible.
    pub req_bpm: bool,
}

/// What a [`TransitionProposal`] holds.
pub struct ProposalModel {
    /// Length of the mix.
    pub duration: int,
    /// Where in the current track the mix starts.
    pub current_track_mix_out: int,
    /// Where in the next track the mix starts.
    pub next_track_mix_in: int,
    /// Name of the mix.
    pub mix_type: Seq<char>,
    /// What is done to the frequency bands.
    pub filter_strategy: Seq<char>,
    /// How well the tracks suit the mix.
    pub compatibility_score: u32,
    /// Whether the keys are compatible.
    pub key_compatible: bool,
    /// Whether the tempos are compatible.
    pub bpm_compatible: bool,
}

/// What an [`AdvancedTransition`] holds.
pub struct LongMixModel {
    /// Where in the current track the mix starts.
    pub start_time_current: int,
    /// Where in the next track the mix starts.
    pub start_time_next: int,
    /// Length of the mix.
    pub duration: int,
    /// Pitch shift of the next track in semitones.
    pub pitch_shift_semitones: int,
    /// Rate at which the next track is played, in millionths.
    pub playback_rate: int,
    /// Automation curve of the current track.
    pub automation_current: Seq<AutomationPoint>,
    /// Automation curve of the next track.
    pub automation_next: Seq<AutomationPoint>,
    /// Name of the mix.
    pub strategy: Seq<char>,
}

impl View for MixStrategy {
    type V = StrategyModel;

    open spec fn view(&self) -> StrategyModel {
        StrategyModel {
            name: self.name@,
            filter: self.filter@,
            bars: self.bars as int,
            req_key: self.req_key,
            req_bpm: self.req_bpm,
        }
    }
}

impl View for TransitionProposal {
    type V = ProposalModel;

    open spec fn view(&self) -> ProposalModel {
        ProposalModel {
            duration: self.duration as int,
            current_track_mix_out: self.current_track_mix_out as int,
            next_track_mix_in: self.next_track_mix_in as int,
            mix_type: self.mix_type@,
            filter_strategy: self.filter_strategy@,
            compatibility_score: self.compatibility_score,
            key_compatible: self.key_compatible,
            bpm_compatible: self.bpm_compatible,
        }
    }
}

impl View for AdvancedTransition {
    type V = LongMixModel;

    open spec fn view(&self) -> LongMixModel {
        LongMixModel {
            start_time_current: self.start_time_current as int,
            start_time_next: self.start_time_next as int,
            duration: self.duration as int,
            pitch_shift_semitones: self.pitch_shift_semitones as int,
            playback_rate: self.playback_rate as int,
            automation_current: self.automation_current@,
            automation_next: self.automation_next@,
            strategy: self.strategy@,
        }
    }
}

/// The mix strategies, in the order in which they are tried.
pub open spec fn strategies() -> Seq<StrategyModel> {
    seq![
        StrategyModel {
            name: "Harmonic Deep Blend"@,
            filter: "Eq Swap (Bass/Mid)"@,
            bars: 32,
            req_bpm: true,
            req_key: true,
        },
        StrategyModel {
            name: "Long Filter Blend"@,
            filter: "Bass Swap / LPF"@,
            bars: 32,
            req_bpm: true,
            req_key: false,
        },
        StrategyModel {
            name: "Standard Blend"@,
            filter: "Eq Mixing"@,
            bars: 16,
            req_bpm: true,
            req_key: true,
        },
        StrategyModel {
            name: "Filter Blend"@,
            filter: "Bass Cut Out"@,
            bars: 16,
            req_bpm: true,
            req_key: false,
        },
        StrategyModel {
            name: "Short Blend"@,
            filter: "Wash Out / Echo"@,
            bars: 8,
            req_bpm: false,
            req_key: false,
        },
        StrategyModel {
            name: "Quick Blend"@,
            filter: "Quick Fade"@,
            bars: 4,
            req_bpm: true,
            req_key: false,
        },
    ]
}

/// The beat length that the planner takes for a track: its own, or that of
/// 128 beats per minute where it has none.
pub open spec fn period_or_default(period: Option<int>) -> int {
    match period {
        Some(p) => p,
        None => DEFAULT_PERIOD as int,
    }
}

/// Whether the tempos of two tracks are compatible: they differ by less than
/// six hundredths of the tempo of the first. With beat lengths `a` and `b`
/// that is so where `|b - a| / b < 0.06`.
pub open spec fn tempos_compatible(a: int, b: int) -> bool {
    50 * (if b >= a {
        b - a
    } else {
        a - b
    }) < 3 * b
}

/// What the planner reads off the two analyses.
pub struct PlanInput {
    /// Length of a bar of the current track.
    pub bar: int,
    /// Whether the tempos are compatible.
    pub bpm_ok: bool,
    /// Whether the keys are compatible.
    pub key_ok: bool,
    /// Where the current track is left.
    pub cur_out: int,
    /// Centre of the mix window of the current track.
    pub cur_center: int,
    /// Duration of the current track.
    pub cur_duration: int,
    /// Where the next track is entered.
    pub next_in: int,
    /// How long the next track plays from there before its vocals come in.
    pub next_intro: int,
}

/// What the planner reads off the two analyses: the bar of the current track,
/// whether tempos and keys are compatible, where the current track is left
/// (its cut-out, or else its fade-out), where the next is entered (its
/// first beat, or else its start), and how long its intro is from there (up
/// to its vocals, or else to 30 seconds).
pub open spec fn plan_input(cur: AnalysisModel, next: AnalysisModel) -> PlanInput {
    let next_in = match next.first_beat_pos {
        Some(t) => t,
        None => 0,
    };
    PlanInput {
        bar: 4 * period_or_default(cur.beat_period),
        bpm_ok: tempos_compatible(
            period_or_default(cur.beat_period),
            period_or_default(next.beat_period),
        ),
        key_ok: camelot_compatible(cur.camelot_key, next.camelot_key),
        cur_out: match cur.cut_out_pos {
            Some(t) => t,
            None => cur.fade_out_pos,
        },
        cur_center: cur.mix_center_pos,
        cur_duration: cur.duration,
        next_in,
        next_intro: match next.vocal_in_pos {
            Some(t) => t,
            None => INTRO_DEFAULT as int,
        } - next_in,
    }
}

/// Whether a strategy can be followed: tempos and keys are compatible where
/// it asks for that, the intro of the next track is at least as long as the
/// mix, and the mix starts no more than 30 seconds before the centre of the
/// mix window of the current track.
pub open spec fn strategy_fits(s: StrategyModel, x: PlanInput) -> bool {
    &&& s.req_bpm ==> x.bpm_ok
    &&& s.req_key ==> x.key_ok
    &&& x.next_intro >= s.bars * x.bar
    &&& x.cur_out - s.bars * x.bar >= x.cur_center - MIX_LOOKBACK
}

/// The first strategy from index `from` on that can be followed.
pub open spec fn first_fit(x: PlanInput, from: int) -> Option<int>
    decreases STRATEGY_COUNT - from,
{
    if from >= STRATEGY_COUNT || from < 0 {
        None
    } else if strategy_fits(strategies()[from], x) {
        Some(from)
    } else {
        first_fit(x, from + 1)
    }
}

/// Name of a mix that follows a strategy: the strategy's name, then its
/// length in bars in brackets.
pub open spec fn mix_label(name: Seq<char>, bars: int) -> Seq<char> {
    name + " ("@ + decimal(bars as nat) + " Bars)"@
}

/// The proposal for two analysed tracks: the first strategy that can be
/// followed; else a bass swap of 16 bars, if the tempos are compatible and
/// the current track goes on for more than that after it is left; else an
/// echo-out of four bars from where the current track is left.
pub open spec fn proposal_of(cur: AnalysisModel, next: AnalysisModel) -> ProposalModel {
    let x = plan_input(cur, next);
    match first_fit(x, 0) {
        Some(k) => {
            let s = strategies()[k];
            ProposalModel {
                duration: s.bars * x.bar,
                current_track_mix_out: x.cur_out - s.bars * x.bar,
                next_track_mix_in: x.next_in,
                mix_type: mix_label(s.name, s.bars),
                filter_strategy: s.filter,
                compatibility_score: SCORE_STRATEGY,
                key_compatible: x.key_ok,
                bpm_compatible: x.bpm_ok,
            }
        },
        None => if x.bpm_ok && x.cur_duration - x.cur_out > BASS_SWAP_BARS * x.bar {
            ProposalModel {
                duration: BASS_SWAP_BARS * x.bar,
                current_track_mix_out: x.cur_out - BASS_SWAP_BARS * x.bar,
                next_track_mix_in: x.next_in,
                mix_type: "Aggressive Bass Swap"@,
                filter_strategy: "Bass Swap"@,
                compatibility_score: SCORE_BASS_SWAP,
                key_compatible: x.key_ok,
                bpm_compatible: x.bpm_ok,
            }
        } else {
            ProposalModel {
                duration: ECHO_OUT_BARS * x.bar,
                current_track_mix_out: x.cur_out,
                next_track_mix_in: x.next_in,
                mix_type: "Echo Out"@,
                filter_strategy: "Echo Freeze"@,
                compatibility_score: SCORE_ECHO_OUT,
                key_compatible: x.key_ok,
                bpm_compatible: x.bpm_ok,
            }
        },
    }
}

/// The automation curve of the track that is left in a bass swap of length
/// `dur`: its volume stays up while its bass is cut, then goes.
pub open spec fn bass_swap_out(dur: int) -> Seq<AutomationPoint> {
    seq![
        AutomationPoint { time_offset: 0, volume: UNIT, low_cut: 0, high_cut: 0 },
        AutomationPoint {
            time_offset: (dur / 2) as i64,
            volume: 900_000,
            low_cut: 800_000,
            high_cut: 0,
        },
        AutomationPoint { time_offset: dur as i64, volume: 0, low_cut: UNIT, high_cut: 0 },
    ]
}

/// The automation curve of the track that is entered in a bass swap of
/// length `dur`: the mirror image of the other.
pub open spec fn bass_swap_in(dur: int) -> Seq<AutomationPoint> {
    seq![
        AutomationPoint { time_offset: 0, volume: 0, low_cut: UNIT, high_cut: 0 },
        AutomationPoint {
            time_offset: (dur / 2) as i64,
            volume: 900_000,
            low_cut: 800_000,
            high_cut: 0,
        },
        AutomationPoint { time_offset: dur as i64, volume: UNIT, low_cut: 0, high_cut: 0 },
    ]
}

/// The long mix for two analysed tracks: 32 bars of the current track, which
/// end five seconds before it does, with the next track played at the rate
/// that brings it to the tempo of the current one and arriving at its drop
/// (or else where its vocals come in, or else after 32 of its bars) as the
/// mix ends. Neither start lies before the start of its track. Quotients are
/// rounded down.
pub open spec fn long_mix_of(cur: AnalysisModel, next: AnalysisModel) -> LongMixModel {
    let a = period_or_default(cur.beat_period);
    let b = period_or_default(next.beat_period);
    let duration = LONG_MIX_BARS * 4 * a;
    let next_start = match or_else(next.drop_pos, next.vocal_in_pos) {
        Some(t) => t,
        None => LONG_MIX_BARS * 4 * b,
    };
    LongMixModel {
        start_time_current: max_int(cur.duration - LONG_MIX_TAIL - duration, 0),
        start_time_next: max_int(next_start - duration * a / b, 0),
        duration,
        pitch_shift_semitones: 0,
        playback_rate: b * 1_000_000 / a,
        automation_current: bass_swap_out(duration),
        automation_next: bass_swap_in(duration),
        strategy: "Long Bass Swap"@,
    }
}

impl MixStrategy {
    /// A strategy with the given name, filter and length, and what it asks
    /// of tempos and keys.
    pub fn new(
        name: &'static str,
        filter: &'static str,
        bars: u32,
        req_bpm: bool,
        req_key: bool,
    ) -> (s: Self)
        ensures
            s@ == (StrategyModel {
                name: name@,
                filter: filter@,
                bars: bars as int,
                req_key,
                req_bpm,
            }),
    {
        MixStrategy { name, filter, bars, req_key, req_bpm }
    }
}

/// The `index`-th mix strategy.
pub fn strategy(index: usize) -> (s: MixStrategy)
    requires
        index < STRATEGY_COUNT,
    ensures
        s@ == strategies()[index as int],
        1 <= s.bars <= 32,
{
    match index {
        0 => MixStrategy::new("Harmonic Deep Blend", "Eq Swap (Bass/Mid)", 32, true, true),
        1 => MixStrategy::new("Long Filter Blend", "Bass Swap / LPF", 32, true, false),
        2 => MixStrategy::new("Standard Blend", "Eq Mixing", 16, true, true),
        3 => MixStrategy::new("Filter Blend", "Bass Cut Out", 16, true, false),
        4 => MixStrategy::new("Short Blend", "Wash Out / Echo", 8, false, false),
        _ => MixStrategy::new("Quick Blend", "Quick Fade", 4, true, false),
    }
}

/// The analyzers of the two tracks of a transition: the current track is
/// analysed for a minute at its start and at its end, the next for two
/// minutes at its start.
pub fn transition_analyzers() -> (r: (TrackAnalyzer, TrackAnalyzer))
    ensures
        r.0@ == fresh_analyzer(None, true),
        r.1@ == fresh_analyzer(Some(NEXT_WINDOW), false),
        r.0.window_ok() && r.1.window_ok(),
{
    (TrackAnalyzer::new(None, true), TrackAnalyzer::new(Some(NEXT_WINDOW), false))
}

/// The analyzers of the two tracks of a long mix: the current track is
/// analysed for a minute at its start and at its end, the next for three
/// minutes at its start.
pub fn long_mix_analyzers() -> (r: (TrackAnalyzer, TrackAnalyzer))
    ensures
        r.0@ == fresh_analyzer(None, true),
        r.1@ == fresh_analyzer(Some(NEXT_WINDOW_LONG), false),
        r.0.window_ok() && r.1.window_ok(),
{
    (TrackAnalyzer::new(None, true), TrackAnalyzer::new(Some(NEXT_WINDOW_LONG), false))
}

/// Whether the tempos of two tracks with the given beat lengths are
/// compatible.
pub fn bpm_compatible(period_a: i64, period_b: i64) -> (r: bool)
    requires
        0 < period_a <= PERIOD_LIMIT,
        0 < period_b <= PERIOD_LIMIT,
    ensures
        r == tempos_compatible(period_a as int, period_b as int),
{
    let diff: i64 = if period_b >= period_a {
        period_b - period_a
    } else {
        period_a - period_b
    };
    50 * diff < 3 * period_b
}

/// The string of an optional owned string.
pub fn as_deref(s: &Option<String>) -> (r: Option<&str>)
    ensures
        opt_view(r) == opt_text(*s),
{
    match s {
        Some(t) => Some(t.as_str()),
        None => None,
    }
}

/// The name of a mix that follows a strategy.
pub fn label_of(s: &MixStrategy) -> (r: String)
    ensures
        r@ == mix_label(s@.name, s@.bars),
{
    let r: String = String::from_str(s.name).concat(" (").concat(
        decimal_string(s.bars).as_str(),
    ).concat(" Bars)");
    r
}

/// Proposes how to mix from the current track into the next. The strategies
/// are tried in their order and the first that can be followed is proposed,
/// with a score of 0.9. Where none can, a bass swap of 16 bars is proposed
/// with a score of 0.7 if the tempos are compatible and the current track
/// goes on for more than 16 bars after it is left, and else an echo-out of
/// four bars with a score of 0.5. A track without a tempo counts as one of
/// 128 beats per minute.
pub fn suggest_transition(cur: &AudioAnalysis, next: &AudioAnalysis) -> (r: TransitionProposal)
    requires
        cur.within_limits(),
        next.within_limits(),
    ensures
        r@ == proposal_of(cur@, next@),
{
    let period_a: i64 = match cur.beat_period {
        Some(p) => p,
        None => DEFAULT_PERIOD,
    };
    let period_b: i64 = match next.beat_period {
        Some(p) => p,
        None => DEFAULT_PERIOD,
    };
    let bpm_ok: bool = bpm_compatible(period_a, period_b);
    let key_ok: bool = is_camelot_compatible(
        as_deref(&cur.camelot_key),
        as_deref(&next.camelot_key),
    );
    let cur_out: i64 = match cur.cut_out_pos {
        Some(t) => t,
        None => cur.fade_out_pos,
    };
    let next_in: i64 = match next.first_beat_pos {
        Some(t) => t,
        None => 0,
    };
    let next_intro: i64 = match next.vocal_in_pos {
        Some(t) => t,
        None => INTRO_DEFAULT,
    } - next_in;
    let bar: i64 = 4 * period_a;
    let ghost x = plan_input(cur@, next@);
    assert(x.bar == bar && x.bpm_ok == bpm_ok && x.key_ok == key_ok && x.cur_out == cur_out
        && x.next_in == next_in && x.next_intro == next_intro);
    let mut k: usize = 0;
    while k < STRATEGY_COUNT
        invariant
            k <= STRATEGY_COUNT,
            first_fit(x, 0) == first_fit(x, k as int),
            x == plan_input(cur@, next@),
            cur.within_limits(),
            x.bar == bar,
            x.bpm_ok == bpm_ok,
            x.key_ok == key_ok,
            x.cur_out == cur_out,
            x.next_in == next_in,
            x.next_intro == next_intro,
            x.cur_center == cur.mix_center_pos,
            0 < bar <= 4 * PERIOD_LIMIT,
            -SPAN_LIMIT <= cur_out <= SPAN_LIMIT,
        decreases STRATEGY_COUNT - k,
    {
        let s: MixStrategy = strategy(k);
        assert(0 < s.bars * bar <= 32 * (4 * PERIOD_LIMIT)) by (nonlinear_arith)
            requires
                1 <= s.bars <= 32,
                0 < bar <= 4 * PERIOD_LIMIT,
        ;
        let dur: i64 = s.bars as i64 * bar;
        let fits: bool = (!s.req_bpm || bpm_ok) && (!s.req_key || key_ok) && next_intro >= dur
            && cur_out - dur >= cur.mix_center_pos - MIX_LOOKBACK;
        if fits {
            let r = TransitionProposal {
                duration: dur,
                current_track_mix_out: cur_out - dur,
                next_track_mix_in: next_in,
                mix_type: label_of(&s),
                filter_strategy: String::from_str(s.filter),
                compatibility_score: SCORE_STRATEGY,
                key_compatible: key_ok,
                bpm_compatible: bpm_ok,
            };
            return r;
        }
        k += 1;
    }
    let swap: i64 = BASS_SWAP_BARS * bar;
    if bpm_ok && cur.duration - cur_out > swap {
        return TransitionProposal {
            duration: swap,
            current_track_mix_out: cur_out - swap,
            next_track_mix_in: next_in,
            mix_type: String::from_str("Aggressive Bass Swap"),
            filter_strategy: String::from_str("Bass Swap"),
            compatibility_score: SCORE_BASS_SWAP,
            key_compatible: key_ok,
            bpm_compatible: bpm_ok,
        };
    }
    TransitionProposal {
        duration: ECHO_OUT_BARS * bar,
        current_track_mix_out: cur_out,
        next_track_mix_in: next_in,
        mix_type: String::from_str("Echo Out"),
        filter_strategy: String::from_str("Echo Freeze"),
        compatibility_score: SCORE_ECHO_OUT,
        key_compatible: key_ok,
        bpm_compatible: bpm_ok,
    }
}

/// The automation curves of a bass swap of length `dur`, first that of the
/// track that is left, then that of the track that is entered. Each has
/// three points: at the start, in the middle and at the end of the mix, which
/// does not end before it starts.
pub fn generate_bass_swap_automation(dur: i64) -> (r: (Vec<AutomationPoint>, Vec<AutomationPoint>))
    requires
        dur >= 0,
    ensures
        r.0@ == bass_swap_out(dur as int),
        r.1@ == bass_swap_in(dur as int),
{
    let mid: i64 = dur / 2;
    let mut a: Vec<AutomationPoint> = Vec::new();
    let mut b: Vec<AutomationPoint> = Vec::new();
    a.push(AutomationPoint { time_offset: 0, volume: UNIT, low_cut: 0, high_cut: 0 });
    a.push(AutomationPoint { time_offset: mid, volume: 900_000, low_cut: 800_000, high_cut: 0 });
    a.push(AutomationPoint { time_offset: dur, volume: 0, low_cut: UNIT, high_cut: 0 });
    b.push(AutomationPoint { time_offset: 0, volume: 0, low_cut: UNIT, high_cut: 0 });
    b.push(AutomationPoint { time_offset: mid, volume: 900_000, low_cut: 800_000, high_cut: 0 });
    b.push(AutomationPoint { time_offset: dur, volume: UNIT, low_cut: 0, high_cut: 0 });
    (a, b)
}

/// Proposes a long mix with a bass swap: 32 bars of the current track, ending
/// five seconds before it does, with the next track brought to the tempo of
/// the current one. A track without a tempo counts as one of 128 beats per
/// minute.
pub fn suggest_long_mix(cur: &AudioAnalysis, next: &AudioAnalysis) -> (r: AdvancedTransition)
    requires
        cur.within_limits(),
        next.within_limits(),
    ensures
        r@ == long_mix_of(cur@, next@),
{
    let period_a: i64 = match cur.beat_period {
        Some(p) => p,
        None => DEFAULT_PERIOD,
    };
    let period_b: i64 = match next.beat_period {
        Some(p) => p,
        None => DEFAULT_PERIOD,
    };
    let duration: i64 = LONG_MIX_BARS * 4 * period_a;
    let cur_end: i64 = cur.duration - LONG_MIX_TAIL;
    let anchor: Option<i64> = match next.drop_pos {
        Some(t) => Some(t),
        None => next.vocal_in_pos,
    };
    let next_start: i64 = match anchor {
        Some(t) => t,
        None => LONG_MIX_BARS * 4 * period_b,
    };
    assert(duration * period_a <= 0x80_0000_0000 * 0x1_0000_0000) by (nonlinear_arith)
        requires
            0 < duration <= 0x80_0000_0000,
            0 < period_a <= 0x1_0000_0000,
    ;
    assert(period_b * 1_000_000 <= 0x1_0000_0000 * 1_000_000) by (nonlinear_arith)
        requires
            0 < period_b <= 0x1_0000_0000,
    ;
    let stretched: i128 = duration as i128 * period_a as i128 / period_b as i128;
    assert(0 <= stretched) by (nonlinear_arith)
        requires
            stretched == (duration * period_a) / (period_b as int),
            duration > 0,
            period_a > 0,
            period_b > 0,
    ;
    let ahead: i128 = next_start as i128 - stretched;
    let start_next: i64 = if ahead > 0 {
        ahead as i64
    } else {
        0
    };
    let start_current: i64 = if cur_end - duration > 0 {
        cur_end - duration
    } else {
        0
    };
    assert(0 <= (period_b * 1_000_000) / (period_a as int) <= period_b * 1_000_000)
        by (nonlinear_arith)
        requires
            period_a >= 1,
            period_b > 0,
    ;
    let rate: u64 = (period_b as u64 * 1_000_000) / period_a as u64;
    let (automation_current, automation_next) = generate_bass_swap_automation(duration);
    let r = AdvancedTransition {
        start_time_current: start_current,
        start_time_next: start_next,
        duration,
        pitch_shift_semitones: 0,
        playback_rate: rate,
        automation_current,
        automation_next,
        strategy: String::from_str("Long Bass Swap"),
    };
    r
}

/// The times of both curves of a bass swap that takes any time at all do not
/// run backwards, and every volume and every cut lies between nothing and
/// full scale.
pub proof fn law_automation_ordered(dur: int)
    requires
        0 <= dur <= i64::MAX,
    ensures
        forall|i: int, j: int|
            0 <= i <= j < 3 ==> bass_swap_out(dur)[i].time_offset <= bass_swap_out(
                dur,
            )[j].time_offset,
        forall|i: int, j: int|
            0 <= i <= j < 3 ==> bass_swap_in(dur)[i].time_offset <= bass_swap_in(
                dur,
            )[j].time_offset,
        forall|i: int|
            0 <= i < 3 ==> (#[trigger] bass_swap_out(dur)[i]).volume <= UNIT && bass_swap_out(
                dur,
            )[i].low_cut <= UNIT && bass_swap_out(dur)[i].high_cut <= UNIT,
        forall|i: int|
            0 <= i < 3 ==> (#[trigger] bass_swap_in(dur)[i]).volume <= UNIT && bass_swap_in(
                dur,
            )[i].low_cut <= UNIT && bass_swap_in(dur)[i].high_cut <= UNIT,
{
}

} // verus!
