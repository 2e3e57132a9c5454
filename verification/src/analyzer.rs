//! The track analyzer: what it asks of the decoder, and the analysis record
//! that it derives from the envelopes, the chroma vector and the loudness of
//! a decoded track.

use vstd::prelude::*;
use crate::camelot::{camelot_code, camelot_letter, camelot_number, get_camelot_key,
    law_code_reads_back, parse_camelot};
use crate::cuts::{calculate_smart_cut_in, calculate_smart_cut_out, cut_in_of, cut_out_of,
    law_mix_window, lemma_cut_out_not_negative, mix_window, mix_window_of, MixWindow,
    MIX_SPAN_MAX, MIX_SPAN_MIN};
use crate::detect::{calculate_outro_energy, detect_drop, detect_silence, detect_vocals, drop_of,
    fade_in_of, fade_out_of, fill_energy_profile, law_fades_ordered, lemma_fades_not_negative,
    lemma_vocal_out_not_negative, outro_energy_of, peak_in_slot, tail_start_of, vocal_in_of,
    vocal_last_in_of, vocal_out_of};
use crate::key::{detect_key, key_of, lemma_best_candidate_range, KeyEstimate};
use crate::tempo::{detect_bpm, law_tempo_range, tempo_of, Tempo};
use crate::text::opt_text;
use crate::units::{clamp_int, max_int, min_int, opt_time, span_ok, time_ok, FRAME_LIMIT,
    FRAME_MICROS, PERIOD_LIMIT, SLOT_MICROS, SPAN_LIMIT, TIME_LIMIT};

verus! {

/// Version of the analysis, carried in every record so that stored records of
/// an older analysis can be told apart.
pub const ANALYSIS_VERSION: i32 = 13;

/// Sample rate assumed for a track that does not state one.
pub const DEFAULT_SAMPLE_RATE: u32 = 44_100;

/// Length of one envelope window in milliseconds.
pub const WINDOW_MILLIS: u64 = 20;

/// How much of a track is analysed from its start where nothing is asked.
pub const ANALYZE_DEFAULT: i64 = 60_000_000;

/// Least that is analysed from the start of a track.
pub const ANALYZE_MIN: i64 = 5_000_000;

/// Most that is analysed from the start of a track.
pub const ANALYZE_MAX: i64 = 300_000_000;

/// Most of the head that is kept for key detection.
pub const KEY_SPAN: i64 = 30_000_000;

/// Level that a frame has to exceed for its vocal band share to be taken;
/// below it the share counts as zero.
pub const SHARE_GUARD: u32 = 100;

/// Most channels of a track that are analysed.
pub const MAX_CHANNELS: usize = 8;

/// The envelopes of one stretch of a track, one value per 20 ms each.
pub struct AnalysisSegment {
    /// Level of the whole band.
    pub envelope: Vec<u32>,
    /// Level below 150 Hz.
    pub low_envelope: Vec<u32>,
    /// Share of the band from 200 Hz to 3 kHz in the level of the whole band.
    pub vocal_ratio: Vec<u32>,
}

/// What decoding a track has yielded.
pub struct DecodedTrack {
    /// Sample rate that the track states.
    pub sample_rate: Option<u32>,
    /// Length of the track as its container states it.
    pub total: Option<i64>,
    /// Time of the last packet read.
    pub duration: i64,
    /// Envelopes of the head.
    pub head: AnalysisSegment,
    /// Envelopes of the tail; empty if the tail was not read.
    pub tail: AnalysisSegment,
    /// Spectral energy of the head by pitch class.
    pub chroma: [u32; 12],
    /// Loudness of all that was decoded, in millionths of a loudness unit.
    pub loudness: Option<i64>,
}

/// The analysis of a track.
pub struct AudioAnalysis {
    /// Time of the last packet read.
    pub duration: i64,
    /// Length of one beat; the tempo is `60_000_000` over it beats per minute.
    pub beat_period: Option<i64>,
    /// Confidence in the tempo.
    pub bpm_confidence: Option<u32>,
    /// Where the sound starts.
    pub fade_in_pos: i64,
    /// Where the sound ends.
    pub fade_out_pos: i64,
    /// Time of the first beat.
    pub first_beat_pos: Option<i64>,
    /// Loudness in millionths of a loudness unit.
    pub loudness: Option<i64>,
    /// Where the energy jumps.
    pub drop_pos: Option<i64>,
    /// Version of the analysis.
    pub version: i32,
    /// How much of the track was analysed from its start.
    pub analyze_window: i64,
    /// Where to enter the track.
    pub cut_in_pos: Option<i64>,
    /// Where to leave the track.
    pub cut_out_pos: Option<i64>,
    /// Centre of the mix window.
    pub mix_center_pos: i64,
    /// Start of the mix window.
    pub mix_start_pos: i64,
    /// End of the mix window.
    pub mix_end_pos: i64,
    /// Peak level of each tenth of a second of the track.
    pub energy_profile: Vec<u32>,
    /// Where the vocals come in.
    pub vocal_in_pos: Option<i64>,
    /// Where the vocals end.
    pub vocal_out_pos: Option<i64>,
    /// Where the last vocal entry is placed.
    pub vocal_last_in_pos: Option<i64>,
    /// Mean square of the level of the outro.
    pub outro_energy_level: Option<u64>,
    /// Pitch class of the root of the key.
    pub key_root: Option<i32>,
    /// Mode of the key: 0 major, 1 minor.
    pub key_mode: Option<i32>,
    /// Confidence in the key.
    pub key_confidence: Option<u32>,
    /// Camelot code of the key.
    pub camelot_key: Option<String>,
}

/// Analyses one track from what the decoder hands it.
pub struct TrackAnalyzer {
    /// How much of the track is analysed from its start, and from its end.
    pub max_analyze_time: i64,
    /// Whether the end of the track is analysed too.
    pub include_tail: bool,
    /// Envelopes of the head.
    pub head: AnalysisSegment,
    /// Envelopes of the tail.
    pub tail: AnalysisSegment,
    /// Spectral energy of the head by pitch class.
    pub chroma: [u32; 12],
    /// Time of the last packet read.
    pub duration: i64,
    /// Sample rate of the track.
    pub sample_rate: u32,
    /// Loudness of all that was decoded.
    pub loudness: Option<i64>,
}

/// What an [`AnalysisSegment`] holds.
pub struct SegmentModel {
    /// Level of the whole band.
    pub envelope: Seq<u32>,
    /// Level below 150 Hz.
    pub low_envelope: Seq<u32>,
    /// Vocal band share.
    pub vocal_ratio: Seq<u32>,
}

/// What a [`DecodedTrack`] holds.
pub struct DecodedModel {
    /// Sample rate that the track states.
    pub sample_rate: Option<u32>,
    /// Length of the track as its container states it.
    pub total: Option<int>,
    /// Time of the last packet read.
    pub duration: int,
    /// Envelopes of the head.
    pub head: SegmentModel,
    /// Envelopes of the tail.
    pub tail: SegmentModel,
    /// Spectral energy of the head by pitch class.
    pub chroma: Seq<u32>,
    /// Loudness of all that was decoded.
    pub loudness: Option<int>,
}

/// What a [`TrackAnalyzer`] holds.
pub struct TrackModel {
    /// How much of the track is analysed from its start, and from its end.
    pub max_analyze_time: int,
    /// Whether the end of the track is analysed too.
    pub include_tail: bool,
    /// Envelopes of the head.
    pub head: SegmentModel,
    /// Envelopes of the tail.
    pub tail: SegmentModel,
    /// Spectral energy of the head by pitch class.
    pub chroma: Seq<u32>,
    /// Time of the last packet read.
    pub duration: int,
    /// Sample rate of the track.
    pub sample_rate: u32,
    /// Loudness of all that was decoded.
    pub loudness: Option<int>,
}

/// What an [`AudioAnalysis`] holds.
pub struct AnalysisModel {
    /// Time of the last packet read.
    pub duration: int,
    /// Length of one beat.
    pub beat_period: Option<int>,
    /// Confidence in the tempo.
    pub bpm_confidence: Option<u32>,
    /// Where the sound starts.
    pub fade_in_pos: int,
    /// Where the sound ends.
    pub fade_out_pos: int,
    /// Time of the first beat.
    pub first_beat_pos: Option<int>,
    /// Loudness.
    pub loudness: Option<int>,
    /// Where the energy jumps.
    pub drop_pos: Option<int>,
    /// Version of the analysis.
    pub version: int,
    /// How much of the track was analysed from its start.
    pub analyze_window: int,
    /// Where to enter the track.
    pub cut_in_pos: Option<int>,
    /// Where to leave the track.
    pub cut_out_pos: Option<int>,
    /// Centre of the mix window.
    pub mix_center_pos: int,
    /// Start of the mix window.
    pub mix_start_pos: int,
    /// End of the mix window.
    pub mix_end_pos: int,
    /// Peak level of each tenth of a second of the track.
    pub energy_profile: Seq<u32>,
    /// Where the vocals come in.
    pub vocal_in_pos: Option<int>,
    /// Where the vocals end.
    pub vocal_out_pos: Option<int>,
    /// Where the last vocal entry is placed.
    pub vocal_last_in_pos: Option<int>,
    /// Mean square of the level of the outro.
    pub outro_energy_level: Option<int>,
    /// Pitch class of the root of the key.
    pub key_root: Option<int>,
    /// Mode of the key.
    pub key_mode: Option<int>,
    /// Confidence in the key.
    pub key_confidence: Option<u32>,
    /// Camelot code of the key.
    pub camelot_key: Option<Seq<char>>,
}

impl View for AnalysisSegment {
    type V = SegmentModel;

    open spec fn view(&self) -> SegmentModel {
        SegmentModel {
            envelope: self.envelope@,
            low_envelope: self.low_envelope@,
            vocal_ratio: self.vocal_ratio@,
        }
    }
}

impl View for DecodedTrack {
    type V = DecodedModel;

    open spec fn view(&self) -> DecodedModel {
        DecodedModel {
            sample_rate: self.sample_rate,
            total: opt_time(self.total),
            duration: self.duration as int,
            head: self.head@,
            tail: self.tail@,
            chroma: self.chroma@,
            loudness: opt_time(self.loudness),
        }
    }
}

impl View for TrackAnalyzer {
    type V = TrackModel;

    open spec fn view(&self) -> TrackModel {
        TrackModel {
            max_analyze_time: self.max_analyze_time as int,
            include_tail: self.include_tail,
            head: self.head@,
            tail: self.tail@,
            chroma: self.chroma@,
            duration: self.duration as int,
            sample_rate: self.sample_rate,
            loudness: opt_time(self.loudness),
        }
    }
}

impl View for AudioAnalysis {
    type V = AnalysisModel;

    open spec fn view(&self) -> AnalysisModel {
        AnalysisModel {
            duration: self.duration as int,
            beat_period: opt_time(self.beat_period),
            bpm_confidence: self.bpm_confidence,
            fade_in_pos: self.fade_in_pos as int,
            fade_out_pos: self.fade_out_pos as int,
            first_beat_pos: opt_time(self.first_beat_pos),
            loudness: opt_time(self.loudness),
            drop_pos: opt_time(self.drop_pos),
            version: self.version as int,
            analyze_window: self.analyze_window as int,
            cut_in_pos: opt_time(self.cut_in_pos),
            cut_out_pos: opt_time(self.cut_out_pos),
            mix_center_pos: self.mix_center_pos as int,
            mix_start_pos: self.mix_start_pos as int,
            mix_end_pos: self.mix_end_pos as int,
            energy_profile: self.energy_profile@,
            vocal_in_pos: opt_time(self.vocal_in_pos),
            vocal_out_pos: opt_time(self.vocal_out_pos),
            vocal_last_in_pos: opt_time(self.vocal_last_in_pos),
            outro_energy_level: match self.outro_energy_level {
                Some(e) => Some(e as int),
                None => None,
            },
            key_root: match self.key_root {
                Some(k) => Some(k as int),
                None => None,
            },
            key_mode: match self.key_mode {
                Some(k) => Some(k as int),
                None => None,
            },
            key_confidence: self.key_confidence,
            camelot_key: opt_text(self.camelot_key),
        }
    }
}

/// A segment without frames.
pub open spec fn no_frames() -> SegmentModel {
    SegmentModel {
        envelope: Seq::empty(),
        low_envelope: Seq::empty(),
        vocal_ratio: Seq::empty(),
    }
}

/// What an analyzer holds before it has taken anything in.
pub open spec fn fresh_analyzer(max_time: Option<i64>, include_tail: bool) -> TrackModel {
    TrackModel {
        max_analyze_time: analysis_window_of(max_time),
        include_tail,
        head: no_frames(),
        tail: no_frames(),
        chroma: Seq::new(12, |i: int| 0u32),
        duration: 0,
        sample_rate: DEFAULT_SAMPLE_RATE,
        loudness: None,
    }
}

/// The sample rate that a decoded track is analysed at: its own, or the
/// default one where it states none.
pub open spec fn rate_of(track: DecodedModel) -> u32 {
    match track.sample_rate {
        Some(r) => r,
        None => DEFAULT_SAMPLE_RATE,
    }
}

/// What an analyzer holds once it has taken in a decoded track: the track's
/// sample rate or the default one, its head, and its tail only where the
/// analyzer asks for a tail of a track of that length.
pub open spec fn taken_in(before: TrackModel, track: DecodedModel) -> TrackModel {
    TrackModel {
        max_analyze_time: before.max_analyze_time,
        include_tail: before.include_tail,
        head: track.head,
        tail: if tail_target_of(before.include_tail, before.max_analyze_time, track.total)
            is Some {
            track.tail
        } else {
            no_frames()
        },
        chroma: track.chroma,
        duration: track.duration,
        sample_rate: rate_of(track),
        loudness: track.loudness,
    }
}

/// The analysis of what an analyzer holds.
pub open spec fn analysis_of(t: TrackModel) -> AnalysisModel {
    let head = t.head.envelope;
    let tail = t.tail.envelope;
    let fade_in = fade_in_of(head);
    let fade_out = fade_out_of(head, tail, t.duration);
    let tempo = tempo_of(head);
    let key = key_of(t.chroma);
    let vocal_in = vocal_in_of(head, t.head.vocal_ratio, fade_in);
    let vocal_out = vocal_out_of(
        head,
        t.head.vocal_ratio,
        tail,
        t.tail.vocal_ratio,
        t.duration,
        fade_out,
    );
    let cut_out = cut_out_of(
        period_of(tempo),
        first_beat_of(tempo),
        confidence_of(tempo),
        vocal_out,
        fade_out,
        t.duration,
    );
    let window = mix_window_of(Some(cut_out), period_of(tempo), t.duration);
    AnalysisModel {
        duration: t.duration,
        beat_period: period_of(tempo),
        bpm_confidence: confidence_of(tempo),
        fade_in_pos: fade_in,
        fade_out_pos: if t.include_tail {
            fade_out
        } else {
            t.duration
        },
        first_beat_pos: first_beat_of(tempo),
        loudness: t.loudness,
        drop_pos: drop_of(head),
        version: ANALYSIS_VERSION as int,
        analyze_window: t.max_analyze_time,
        cut_in_pos: Some(
            cut_in_of(
                period_of(tempo),
                first_beat_of(tempo),
                confidence_of(tempo),
                or_else(vocal_in, drop_of(head)),
                fade_in,
            ),
        ),
        cut_out_pos: only_if(t.include_tail, Some(cut_out)),
        mix_center_pos: window.0,
        mix_start_pos: window.1,
        mix_end_pos: window.2,
        energy_profile: Seq::new(
            profile_len_of(t.duration) as nat,
            |k: int| profile_slot_of(head, tail, t.duration, k),
        ),
        vocal_in_pos: vocal_in,
        vocal_out_pos: only_if(t.include_tail, vocal_out),
        vocal_last_in_pos: only_if(t.include_tail, vocal_last_in_of(vocal_out, fade_in)),
        outro_energy_level: outro_energy_of(tail),
        key_root: match key {
            Some(k) => Some(k.root as int),
            None => None,
        },
        key_mode: match key {
            Some(k) => Some(k.mode as int),
            None => None,
        },
        key_confidence: match key {
            Some(k) => Some(k.confidence),
            None => None,
        },
        camelot_key: match key {
            Some(k) => Some(camelot_code(k.root as int, k.mode as int)),
            None => None,
        },
    }
}

/// Share of `band` in `level`, in millionths and at most `u32::MAX`; zero
/// where the level is not above the guard.
pub open spec fn band_share(band: u32, level: u32) -> u32 {
    if level > SHARE_GUARD {
        min_int(band as int * 1_000_000 / level as int, u32::MAX as int) as u32
    } else {
        0
    }
}

/// Samples in one envelope window at a sample rate.
pub open spec fn window_size_of(sample_rate: u32) -> int {
    sample_rate as int * WINDOW_MILLIS as int / 1000
}

/// The analysis window that is used where `asked` is asked for: a minute by
/// default, and between five seconds and five minutes.
pub open spec fn analysis_window_of(asked: Option<i64>) -> int {
    clamp_int(
        match asked {
            Some(t) => t as int,
            None => ANALYZE_DEFAULT as int,
        },
        ANALYZE_MIN as int,
        ANALYZE_MAX as int,
    )
}

/// How many samples of the head are kept for key detection: those of the
/// analysis window, of 30 seconds at most.
pub open spec fn key_samples_of(sample_rate: u32, window: int) -> int {
    sample_rate as int * min_int(window, KEY_SPAN as int) / 1_000_000
}

/// The time that `frames` samples take at a sample rate, at most
/// [`TIME_LIMIT`]; zero at a rate of zero.
pub open spec fn local_time_of(frames: u64, sample_rate: u32) -> int {
    if sample_rate == 0 {
        0
    } else {
        min_int(frames as int * 1_000_000 / sample_rate as int, TIME_LIMIT as int)
    }
}

/// Where reading the tail starts: one analysis window before the end, if the
/// tail is asked for and the track is known to be longer than two windows.
pub open spec fn tail_target_of(include_tail: bool, window: int, total: Option<int>) -> Option<
    int,
> {
    if include_tail && total is Some && total->0 > 2 * window {
        Some(total->0 - window)
    } else {
        None
    }
}

/// Number of slots of the energy profile of a track: one for each tenth of
/// a second begun, and none for a track of no duration.
pub open spec fn profile_len_of(duration: int) -> int {
    max_int((duration + SLOT_MICROS - 1) / (SLOT_MICROS as int), 0)
}

/// What slot `slot` of the energy profile holds: the peak of the frames of
/// the head and of the tail that start in it.
pub open spec fn profile_slot_of(head: Seq<u32>, tail: Seq<u32>, duration: int, slot: int) -> u32 {
    peak_in_slot(
        peak_in_slot(0, head, 0, slot, head.len() as int),
        tail,
        tail_start_of(duration, tail.len() as int),
        slot,
        tail.len() as int,
    )
}

/// The beat length of a tempo, if there is one.
pub open spec fn period_of(t: Option<Tempo>) -> Option<int> {
    match t {
        Some(t) => Some(t.beat_period as int),
        None => None,
    }
}

/// The first beat of a tempo, if there is one.
pub open spec fn first_beat_of(t: Option<Tempo>) -> Option<int> {
    match t {
        Some(t) => Some(t.first_beat as int),
        None => None,
    }
}

/// The confidence of a tempo, if there is one.
pub open spec fn confidence_of(t: Option<Tempo>) -> Option<u32> {
    match t {
        Some(t) => Some(t.confidence),
        None => None,
    }
}

/// The first of two optional values that is there.
pub open spec fn or_else(a: Option<int>, b: Option<int>) -> Option<int> {
    if a is Some {
        a
    } else {
        b
    }
}

/// An optional value, or `None` where `keep` is false.
pub open spec fn only_if(keep: bool, value: Option<int>) -> Option<int> {
    if keep {
        value
    } else {
        None
    }
}

impl AnalysisSegment {
    /// A segment without frames.
    pub fn new() -> (s: Self)
        ensures
            s@ == no_frames(),
    {
        AnalysisSegment { envelope: Vec::new(), low_envelope: Vec::new(), vocal_ratio: Vec::new() }
    }
}

/// The share of `band` in `level`, in millionths and at most `u32::MAX`; zero
/// where the level is not above a ten-thousandth of full scale.
pub fn share_of(band: u32, level: u32) -> (share: u32)
    ensures
        share == band_share(band, level),
{
    if level > SHARE_GUARD {
        let scaled: u64 = band as u64 * 1_000_000 / level as u64;
        if scaled > u32::MAX as u64 {
            u32::MAX
        } else {
            scaled as u32
        }
    } else {
        0
    }
}

/// Samples in one envelope window of 20 ms at a sample rate. Zero below 50
/// hertz, where no envelope can be taken.
pub fn window_size(sample_rate: u32) -> (n: u32)
    ensures
        n == window_size_of(sample_rate),
{
    (sample_rate as u64 * WINDOW_MILLIS / 1000) as u32
}

/// How many of a track's channels are analysed: the first eight.
pub fn analysis_channels(count: usize) -> (n: usize)
    ensures
        n == min_int(count as int, MAX_CHANNELS as int),
{
    if count < MAX_CHANNELS {
        count
    } else {
        MAX_CHANNELS
    }
}

/// The time of a packet: the one its container stamps it with, or else the
/// time that the samples decoded before it take at the sample rate.
pub fn packet_time(stamped: Option<i64>, frames_before: u64, sample_rate: u32) -> (t: i64)
    ensures
        t == match stamped {
            Some(s) => s as int,
            None => local_time_of(frames_before, sample_rate),
        },
{
    match stamped {
        Some(s) => s,
        None => {
            if sample_rate == 0 {
                0
            } else {
                let wide: u128 = frames_before as u128 * 1_000_000 / sample_rate as u128;
                if wide > TIME_LIMIT as u128 {
                    TIME_LIMIT
                } else {
                    wide as i64
                }
            }
        },
    }
}

impl TrackAnalyzer {
    /// An analyzer that reads `max_time` of the start of a track (a minute
    /// where nothing is asked; five seconds at least and five minutes at
    /// most), and as much of its end if `include_tail` is set.
    pub fn new(max_time: Option<i64>, include_tail: bool) -> (a: Self)
        ensures
            a@ == fresh_analyzer(max_time, include_tail),
            a.within_limits(),
            a.window_ok(),
    {
        let asked: i64 = match max_time {
            Some(t) => t,
            None => ANALYZE_DEFAULT,
        };
        let window: i64 = if asked < ANALYZE_MIN {
            ANALYZE_MIN
        } else if asked > ANALYZE_MAX {
            ANALYZE_MAX
        } else {
            asked
        };
        let chroma: [u32; 12] = [0, 0, 0, 0, 0, 0, 0, 0, 0, 0, 0, 0];
        assert(chroma@ =~= Seq::new(12, |i: int| 0u32));
        let a = TrackAnalyzer {
            max_analyze_time: window,
            include_tail,
            head: AnalysisSegment::new(),
            tail: AnalysisSegment::new(),
            chroma,
            duration: 0,
            sample_rate: DEFAULT_SAMPLE_RATE,
            loudness: None,
        };
        a
    }

    /// Whether the analyzer holds a track that the library's arithmetic
    /// covers: a duration that is a time the library accepts, and envelopes
    /// of at most [`FRAME_LIMIT`] frames.
    pub open spec fn within_limits(&self) -> bool {
        &&& time_ok(self.duration as int)
        &&& self.head.envelope@.len() <= FRAME_LIMIT
        &&& self.tail.envelope@.len() <= FRAME_LIMIT
    }

    /// Whether the analysis window is one that [`Self::new`] sets: between
    /// five seconds and five minutes.
    pub open spec fn window_ok(&self) -> bool {
        ANALYZE_MIN <= self.max_analyze_time <= ANALYZE_MAX
    }

    /// Tests [`Self::within_limits`].
    pub fn check_limits(&self) -> (ok: bool)
        ensures
            ok == self.within_limits(),
    {
        0 <= self.duration && self.duration <= TIME_LIMIT && self.head.envelope.len() <= FRAME_LIMIT
            && self.tail.envelope.len() <= FRAME_LIMIT
    }

    /// Tests [`Self::window_ok`].
    pub fn check_window(&self) -> (ok: bool)
        ensures
            ok == self.window_ok(),
    {
        ANALYZE_MIN <= self.max_analyze_time && self.max_analyze_time <= ANALYZE_MAX
    }

    /// How many samples of the head the decoder keeps for key detection.
    pub fn key_max_samples(&self) -> (n: u64)
        requires
            self.window_ok(),
        ensures
            n == key_samples_of(self.sample_rate, self.max_analyze_time as int),
    {
        let span: i64 = if self.max_analyze_time < KEY_SPAN {
            self.max_analyze_time
        } else {
            KEY_SPAN
        };
        assert(self.sample_rate * span <= 0xffff_ffff * 30_000_000) by (nonlinear_arith)
            requires
                0 <= self.sample_rate <= 0xffff_ffff,
                0 <= span <= 30_000_000,
        ;
        self.sample_rate as u64 * span as u64 / 1_000_000
    }

    /// Whether the samples of the next packet are kept for key detection:
    /// only those of the head, and only while fewer are held than are asked
    /// for.
    pub fn wants_pcm(&self, is_head: bool, held: u64) -> (keep: bool)
        requires
            self.window_ok(),
        ensures
            keep == (is_head && held < key_samples_of(
                self.sample_rate,
                self.max_analyze_time as int,
            )),
    {
        is_head && held < self.key_max_samples()
    }

    /// Takes note of a packet at `time` and says whether it is to be decoded.
    /// The time becomes the duration. A packet of the head that lies after
    /// the analysis window ends the head and is not decoded.
    pub fn on_packet(&mut self, time: i64, is_head: bool) -> (decode: bool)
        ensures
            final(self)@ == (TrackModel { duration: time as int, ..old(self)@ }),
            decode == !(is_head && time > old(self).max_analyze_time),
            final(self).window_ok() == old(self).window_ok(),
    {
        self.duration = time;
        !(is_head && time > self.max_analyze_time)
    }

    /// Where the decoder seeks to before it reads the tail: one analysis
    /// window before the end of the track. `None`, and no tail is read, if
    /// the tail is not asked for, the length of the track is not known, or
    /// the track is not longer than two windows.
    pub fn tail_seek_target(&self, total: Option<i64>) -> (target: Option<i64>)
        requires
            self.window_ok(),
        ensures
            opt_time(target) == tail_target_of(
                self.include_tail,
                self.max_analyze_time as int,
                opt_time(total),
            ),
    {
        if !self.include_tail {
            return None;
        }
        match total {
            Some(t) => {
                if t > 2 * self.max_analyze_time {
                    Some(t - self.max_analyze_time)
                } else {
                    None
                }
            },
            None => None,
        }
    }

    /// The analysis of what the analyzer holds. Every detector answers on
    /// its own, so the record may lack tempo, drop, vocals, outro or key.
    /// Without the tail, the track is taken to sound to its end, and no
    /// cut-out and no end of the vocals are reported.
    pub fn finalize_analysis(&self) -> (r: Option<AudioAnalysis>)
        requires
            self.within_limits(),
        ensures
            r is Some,
            r->0@ == analysis_of(self@),
            r->0.within_limits(),
    {
        let head: &[u32] = self.head.envelope.as_slice();
        let tail: &[u32] = self.tail.envelope.as_slice();
        let (fade_in, fade_out) = detect_silence(head, tail, self.duration);
        let tempo: Option<Tempo> = detect_bpm(head);
        let key: Option<KeyEstimate> = detect_key(&self.chroma);
        let drop_pos: Option<i64> = detect_drop(head);
        let (vocal_in, vocal_out, vocal_last_in) = detect_vocals(
            head,
            self.head.vocal_ratio.as_slice(),
            tail,
            self.tail.vocal_ratio.as_slice(),
            self.duration,
            fade_in,
            fade_out,
        );
        let (beat_period, first_beat, confidence) = match tempo {
            Some(t) => (Some(t.beat_period), Some(t.first_beat), Some(t.confidence)),
            None => (None, None, None),
        };
        let cut_out: Option<i64> = calculate_smart_cut_out(
            beat_period,
            first_beat,
            confidence,
            vocal_out,
            fade_out,
            self.duration,
        );
        let anchor: Option<i64> = match vocal_in {
            Some(v) => Some(v),
            None => drop_pos,
        };
        let cut_in: Option<i64> = calculate_smart_cut_in(
            beat_period,
            first_beat,
            confidence,
            anchor,
            fade_in,
        );
        let window: MixWindow = mix_window(cut_out, beat_period, self.duration);
        let slots: i64 = (self.duration + SLOT_MICROS - 1) / SLOT_MICROS;
        let profile_len: usize = slots as usize;
        let mut energy_profile: Vec<u32> = vec![0u32; profile_len];
        fill_energy_profile(&mut energy_profile, head, 0);
        if tail.len() > 0 {
            let tail_span: i64 = tail.len() as i64 * FRAME_MICROS;
            let tail_start: i64 = if self.duration - tail_span > 0 {
                self.duration - tail_span
            } else {
                0
            };
            fill_energy_profile(&mut energy_profile, tail, tail_start);
        }
        let outro: Option<u64> = calculate_outro_energy(tail);
        let (key_root, key_mode, key_confidence, camelot_key) = match key {
            Some(k) => (
                Some(k.root),
                Some(k.mode),
                Some(k.confidence),
                get_camelot_key(k.root, k.mode),
            ),
            None => (None, None, None, None),
        };
        proof {
            lemma_cut_out_not_negative(
                opt_time(beat_period),
                opt_time(first_beat),
                confidence,
                opt_time(vocal_out),
                fade_out as int,
                self.duration as int,
            );
            assert(energy_profile@ =~= analysis_of(self@).energy_profile);
        }
        let a =
            AudioAnalysis {
                duration: self.duration,
                beat_period,
                bpm_confidence: confidence,
                fade_in_pos: fade_in,
                fade_out_pos: if self.include_tail {
                    fade_out
                } else {
                    self.duration
                },
                first_beat_pos: first_beat,
                loudness: self.loudness,
                drop_pos,
                version: ANALYSIS_VERSION,
                analyze_window: self.max_analyze_time,
                cut_in_pos: cut_in,
                cut_out_pos: if self.include_tail {
                    cut_out
                } else {
                    None
                },
                mix_center_pos: window.center,
                mix_start_pos: window.start,
                mix_end_pos: window.end,
                energy_profile,
                vocal_in_pos: vocal_in,
                vocal_out_pos: if self.include_tail {
                    vocal_out
                } else {
                    None
                },
                vocal_last_in_pos: if self.include_tail {
                    vocal_last_in
                } else {
                    None
                },
                outro_energy_level: outro,
                key_root,
                key_mode,
                key_confidence,
                camelot_key,
            };
        Some(a)
    }
}

impl AudioAnalysis {
    /// Whether every time of the record is one the library computes with, and
    /// its beat, if it has one, is positive and not longer than the library
    /// accepts.
    pub open spec fn within_limits(&self) -> bool {
        &&& time_ok(self.duration as int)
        &&& self.beat_period is Some ==> 0 < self.beat_period->0 <= PERIOD_LIMIT
        &&& span_ok(self.fade_in_pos as int)
        &&& span_ok(self.fade_out_pos as int)
        &&& self.first_beat_pos is Some ==> span_ok(self.first_beat_pos->0 as int)
        &&& self.drop_pos is Some ==> span_ok(self.drop_pos->0 as int)
        &&& self.cut_in_pos is Some ==> span_ok(self.cut_in_pos->0 as int)
        &&& self.cut_out_pos is Some ==> span_ok(self.cut_out_pos->0 as int)
        &&& span_ok(self.mix_center_pos as int)
        &&& self.vocal_in_pos is Some ==> span_ok(self.vocal_in_pos->0 as int)
        &&& self.vocal_out_pos is Some ==> span_ok(self.vocal_out_pos->0 as int)
    }
}

impl DecodedTrack {
    /// Whether the track is one that the library's arithmetic covers: a
    /// duration that is a time the library accepts, and envelopes of at most
    /// [`FRAME_LIMIT`] frames.
    pub open spec fn within_limits(&self) -> bool {
        &&& time_ok(self.duration as int)
        &&& self.head.envelope@.len() <= FRAME_LIMIT
        &&& self.tail.envelope@.len() <= FRAME_LIMIT
    }

    /// Tests [`Self::within_limits`].
    pub fn check_limits(&self) -> (ok: bool)
        ensures
            ok == self.within_limits(),
    {
        0 <= self.duration && self.duration <= TIME_LIMIT && self.head.envelope.len() <= FRAME_LIMIT
            && self.tail.envelope.len() <= FRAME_LIMIT
    }
}

impl TrackAnalyzer {
    /// Takes in a decoded track and analyses it. `None`, with the analyzer
    /// unchanged, if the sample rate is below 50 hertz, at which no envelope
    /// can be taken.
    pub fn analyze(&mut self, track: DecodedTrack) -> (r: Option<AudioAnalysis>)
        requires
            track.within_limits(),
            old(self).window_ok(),
        ensures
            r is None <==> window_size_of(rate_of(track@)) == 0,
            r is None ==> *final(self) == *old(self),
            r is Some ==> final(self)@ == taken_in(old(self)@, track@),
            r is Some ==> r->0@ == analysis_of(final(self)@),
            r is Some ==> r->0.within_limits(),
    {
        let rate: u32 = match track.sample_rate {
            Some(r) => r,
            None => DEFAULT_SAMPLE_RATE,
        };
        if window_size(rate) == 0 {
            return None;
        }
        let with_tail: bool = self.tail_seek_target(track.total).is_some();
        self.sample_rate = rate;
        self.duration = track.duration;
        self.head = track.head;
        self.tail = if with_tail {
            track.tail
        } else {
            AnalysisSegment::new()
        };
        self.chroma = track.chroma;
        self.loudness = track.loudness;
        self.finalize_analysis()
    }
}

/// The full analysis of a decoded track: of its head and, if the track is
/// longer than two analysis windows, of its tail. `None` if the sample rate
/// is below 50 hertz.
pub fn analyze_audio_file(track: DecodedTrack, max_analyze_time: Option<i64>) -> (r: Option<
    AudioAnalysis,
>)
    requires
        track.within_limits(),
    ensures
        r is None <==> window_size_of(rate_of(track@)) == 0,
        r is Some ==> r->0@ == analysis_of(
            taken_in(fresh_analyzer(max_analyze_time, true), track@),
        ),
        r is Some ==> r->0.within_limits(),
{
    let mut analyzer: TrackAnalyzer = TrackAnalyzer::new(max_analyze_time, true);
    let r: Option<AudioAnalysis> = analyzer.analyze(track);
    r
}

/// The analysis of the head of a decoded track alone. `None` if the sample
/// rate is below 50 hertz.
pub fn analyze_audio_file_head(track: DecodedTrack, max_analyze_time: Option<i64>) -> (r: Option<
    AudioAnalysis,
>)
    requires
        track.within_limits(),
    ensures
        r is None <==> window_size_of(rate_of(track@)) == 0,
        r is Some ==> r->0@ == analysis_of(
            taken_in(fresh_analyzer(max_analyze_time, false), track@),
        ),
        r is Some ==> r->0.within_limits(),
{
    let mut analyzer: TrackAnalyzer = TrackAnalyzer::new(max_analyze_time, false);
    let r: Option<AudioAnalysis> = analyzer.analyze(track);
    r
}

/// Whether the frames of the head and of the tail that an analyzer holds fit
/// into the track one after the other.
pub open spec fn segments_fit(t: TrackModel) -> bool {
    (t.head.envelope.len() + t.tail.envelope.len()) * FRAME_MICROS <= t.duration
}

/// In the analysis of a track whose head and tail fit into it one after the
/// other, the sound starts at or after the start of the track, ends at or
/// before its end, and does not end before it starts.
pub proof fn law_fade_positions(t: TrackModel)
    requires
        segments_fit(t),
    ensures
        0 <= analysis_of(t).fade_in_pos <= analysis_of(t).fade_out_pos <= analysis_of(t).duration,
{
    law_fades_ordered(t.head.envelope, t.tail.envelope, t.duration);
}

/// In every analysis the mix window lies within the track, its centre lies in
/// it, and it is at most 30 seconds long.
pub proof fn law_mix_positions(t: TrackModel)
    requires
        t.duration >= 0,
    ensures
        0 <= analysis_of(t).mix_start_pos <= analysis_of(t).mix_center_pos <= analysis_of(
            t,
        ).mix_end_pos <= analysis_of(t).duration,
        analysis_of(t).mix_end_pos - analysis_of(t).mix_start_pos <= MIX_SPAN_MAX,
{
    let head = t.head.envelope;
    let tail = t.tail.envelope;
    let fade_out = fade_out_of(head, tail, t.duration);
    let tempo = tempo_of(head);
    let vocal_out = vocal_out_of(
        head,
        t.head.vocal_ratio,
        tail,
        t.tail.vocal_ratio,
        t.duration,
        fade_out,
    );
    lemma_fades_not_negative(head, tail, t.duration);
    lemma_vocal_out_not_negative(
        head,
        t.head.vocal_ratio,
        tail,
        t.tail.vocal_ratio,
        t.duration,
        fade_out,
    );
    law_tempo_range(head);
    lemma_cut_out_not_negative(
        period_of(tempo),
        first_beat_of(tempo),
        confidence_of(tempo),
        vocal_out,
        fade_out,
        t.duration,
    );
    let cut_out = cut_out_of(
        period_of(tempo),
        first_beat_of(tempo),
        confidence_of(tempo),
        vocal_out,
        fade_out,
        t.duration,
    );
    law_mix_window(Some(cut_out), period_of(tempo), t.duration);
}

/// Where neither end of the mix window was cut off at an end of the track,
/// the window is between 15 and 30 seconds long.
pub proof fn law_mix_length(t: TrackModel)
    requires
        t.duration >= 0,
        analysis_of(t).mix_start_pos > 0,
        analysis_of(t).mix_end_pos < t.duration,
    ensures
        MIX_SPAN_MIN <= analysis_of(t).mix_end_pos - analysis_of(t).mix_start_pos <= MIX_SPAN_MAX,
{
    let head = t.head.envelope;
    let tail = t.tail.envelope;
    let fade_out = fade_out_of(head, tail, t.duration);
    let tempo = tempo_of(head);
    let vocal_out = vocal_out_of(
        head,
        t.head.vocal_ratio,
        tail,
        t.tail.vocal_ratio,
        t.duration,
        fade_out,
    );
    let cut_out = cut_out_of(
        period_of(tempo),
        first_beat_of(tempo),
        confidence_of(tempo),
        vocal_out,
        fade_out,
        t.duration,
    );
    law_mix_positions(t);
    law_mix_window(Some(cut_out), period_of(tempo), t.duration);
}

/// The energy profile of a track has one slot for each tenth of a second
/// that the track begins: as many as its duration times ten, rounded up, and
/// none for a track of no duration.
pub proof fn law_profile_length(t: TrackModel)
    requires
        t.duration >= 0,
    ensures
        analysis_of(t).energy_profile.len() * SLOT_MICROS >= t.duration,
        (analysis_of(t).energy_profile.len() - 1) * SLOT_MICROS < t.duration,
        t.duration == 0 ==> analysis_of(t).energy_profile.len() == 0,
{
}

/// An analysis carries a Camelot code where it carries a key and only
/// there, and the code reads back as a number from 1 to 12 and the letter
/// `A` or `B`.
pub proof fn law_camelot_present(t: TrackModel)
    ensures
        analysis_of(t).camelot_key is Some <==> analysis_of(t).key_root is Some && analysis_of(
            t,
        ).key_mode is Some,
        analysis_of(t).camelot_key is Some ==> ({
            let a = analysis_of(t);
            &&& parse_camelot(a.camelot_key->0) == Some(
                (camelot_number(a.key_root->0, a.key_mode->0), camelot_letter(a.key_mode->0)),
            )
            &&& 1 <= camelot_number(a.key_root->0, a.key_mode->0) <= 12
            &&& (camelot_letter(a.key_mode->0) == 'A' || camelot_letter(a.key_mode->0) == 'B')
        }),
{
    lemma_best_candidate_range(t.chroma, 24);
    let key = key_of(t.chroma);
    if key is Some {
        law_code_reads_back(key->0.root as int, key->0.mode as int);
    }
}

impl AudioAnalysis {
    /// Tests [`Self::within_limits`].
    pub fn check_limits(&self) -> (ok: bool)
        ensures
            ok == self.within_limits(),
    {
        0 <= self.duration && self.duration <= TIME_LIMIT && (match self.beat_period {
            Some(p) => 0 < p && p <= PERIOD_LIMIT,
            None => true,
        }) && in_span(self.fade_in_pos) && in_span(self.fade_out_pos) && opt_in_span(
            self.first_beat_pos,
        ) && opt_in_span(self.drop_pos) && opt_in_span(self.cut_in_pos) && opt_in_span(
            self.cut_out_pos,
        ) && in_span(self.mix_center_pos) && opt_in_span(self.vocal_in_pos) && opt_in_span(
            self.vocal_out_pos,
        )
    }
}

/// Whether a point in time is one the library computes with.
pub fn in_span(t: i64) -> (ok: bool)
    ensures
        ok == span_ok(t as int),
{
    -SPAN_LIMIT <= t && t <= SPAN_LIMIT
}

/// Whether a point in time, if there is one, is one the library computes
/// with.
pub fn opt_in_span(t: Option<i64>) -> (ok: bool)
    ensures
        ok == (t is Some ==> span_ok(t->0 as int)),
{
    match t {
        Some(v) => in_span(v),
        None => true,
    }
}

} // verus!
