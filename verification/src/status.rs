//! The playback status that the player's threads share, and every change
//! that is made to it.

use vstd::prelude::*;
use crate::text::opt_text;
use crate::units::{min_int, opt_time, time_ok};

verus! {

/// Sample rate of the status before any track has been opened.
pub const INITIAL_SAMPLE_RATE: u32 = 44_100;

/// Tags and duration of the track that plays.
#[derive(Debug)]
pub struct AudioMetadata {
    /// Duration of the track.
    pub duration: i64,
    /// Title of the track.
    pub title: Option<String>,
    /// Artist of the track.
    pub artist: Option<String>,
    /// Album of the track.
    pub album: Option<String>,
}

/// The playback status.
#[derive(Debug)]
pub struct PlaybackStatus {
    /// Whether the hardware is consuming audio.
    pub is_playing: bool,
    /// Whether one track is being replaced by another.
    pub is_transitioning: bool,
    /// Duration of the track.
    pub duration: i64,
    /// Position in samples at the output rate.
    pub position_samples: u64,
    /// Output sample rate.
    pub sample_rate: u32,
    /// Where the decoder is asked to seek to.
    pub seek_to: Option<i64>,
    /// Tags and duration of the track.
    pub metadata: Option<AudioMetadata>,
}

/// What an [`AudioMetadata`] holds.
pub struct MetadataModel {
    /// Duration of the track.
    pub duration: int,
    /// Title of the track.
    pub title: Option<Seq<char>>,
    /// Artist of the track.
    pub artist: Option<Seq<char>>,
    /// Album of the track.
    pub album: Option<Seq<char>>,
}

/// What a [`PlaybackStatus`] holds.
pub struct StatusModel {
    /// Whether the hardware is consuming audio.
    pub is_playing: bool,
    /// Whether one track is being replaced by another.
    pub is_transitioning: bool,
    /// Duration of the track.
    pub duration: int,
    /// Position in samples at the output rate.
    pub position_samples: int,
    /// Output sample rate.
    pub sample_rate: u32,
    /// Where the decoder is asked to seek to.
    pub seek_to: Option<int>,
    /// Tags and duration of the track.
    pub metadata: Option<MetadataModel>,
}

/// Something that changes the playback status.
pub enum StatusEvent {
    /// A new track is asked for.
    PlayRequested,
    /// Duration and tags of the track have been read.
    TrackKnown(MetadataModel),
    /// The decoder has set up its output: at the given rate, or without a
    /// hardware stream if none could be opened.
    StreamStarted(Option<u32>),
    /// The track could not be opened.
    OpenFailed,
    /// Playback is paused.
    Paused,
    /// Playback is resumed.
    Resumed,
    /// Playback is stopped.
    Stopped,
    /// A seek to the given time is asked for.
    SeekRequested(int),
    /// The decoder has taken up the seek that was asked for.
    SeekTaken,
    /// The decoder has arrived at the given sample.
    SeekLanded(int),
    /// The hardware has played the given number of frames.
    FramesPlayed(int),
    /// Playback is over.
    Ended,
}

impl View for AudioMetadata {
    type V = MetadataModel;

    open spec fn view(&self) -> MetadataModel {
        MetadataModel {
            duration: self.duration as int,
            title: opt_text(self.title),
            artist: opt_text(self.artist),
            album: opt_text(self.album),
        }
    }
}

/// What an optional [`AudioMetadata`] holds.
pub open spec fn opt_metadata(m: Option<AudioMetadata>) -> Option<MetadataModel> {
    match m {
        Some(d) => Some(d@),
        None => None,
    }
}

impl View for PlaybackStatus {
    type V = StatusModel;

    open spec fn view(&self) -> StatusModel {
        StatusModel {
            is_playing: self.is_playing,
            is_transitioning: self.is_transitioning,
            duration: self.duration as int,
            position_samples: self.position_samples as int,
            sample_rate: self.sample_rate,
            seek_to: opt_time(self.seek_to),
            metadata: opt_metadata(self.metadata),
        }
    }
}

/// The sample at which the time `time` lies at a sample rate: the samples
/// that pass in that time, rounded down; sample 0 for a time before the
/// start, and the last sample that can be counted for one too far out.
pub open spec fn sample_at(time: int, sample_rate: u32) -> int {
    if time <= 0 {
        0
    } else {
        min_int(time * sample_rate / 1_000_000, u64::MAX as int)
    }
}

/// The time at which a sample lies at a sample rate, rounded down; zero at a
/// rate of zero, and the last time that can be told for one too far out.
pub open spec fn time_at(sample: int, sample_rate: u32) -> int {
    if sample_rate == 0 {
        0
    } else {
        min_int(sample * 1_000_000 / (sample_rate as int), i64::MAX as int)
    }
}

/// The position after `frames` more frames have been played: that many
/// samples on, or the last sample that can be counted.
pub open spec fn advanced(position: int, frames: int) -> int {
    min_int(position + frames, u64::MAX as int)
}

/// The status before any track has been asked for.
pub open spec fn initial_status() -> StatusModel {
    StatusModel {
        is_playing: false,
        is_transitioning: false,
        duration: 0,
        position_samples: 0,
        sample_rate: INITIAL_SAMPLE_RATE,
        seek_to: None,
        metadata: None,
    }
}

/// The status after an event.
pub open spec fn after(s: StatusModel, e: StatusEvent) -> StatusModel {
    match e {
        StatusEvent::PlayRequested => StatusModel {
            is_playing: false,
            is_transitioning: true,
            duration: 0,
            position_samples: 0,
            seek_to: None,
            metadata: None,
            ..s
        },
        StatusEvent::TrackKnown(m) => StatusModel { duration: m.duration, metadata: Some(m), ..s },
        StatusEvent::StreamStarted(rate) => StatusModel {
            is_playing: true,
            is_transitioning: false,
            sample_rate: match rate {
                Some(r) => r,
                None => s.sample_rate,
            },
            ..s
        },
        StatusEvent::OpenFailed => StatusModel { is_playing: false, is_transitioning: false, ..s },
        StatusEvent::Paused => StatusModel { is_playing: false, ..s },
        StatusEvent::Resumed => StatusModel { is_playing: true, ..s },
        StatusEvent::Stopped => StatusModel { is_playing: false, ..s },
        StatusEvent::SeekRequested(t) => StatusModel {
            seek_to: Some(t),
            position_samples: sample_at(t, s.sample_rate),
            ..s
        },
        StatusEvent::SeekTaken => StatusModel { seek_to: None, ..s },
        StatusEvent::SeekLanded(sample) => StatusModel { position_samples: sample, ..s },
        StatusEvent::FramesPlayed(n) => StatusModel {
            position_samples: advanced(s.position_samples, n),
            ..s
        },
        StatusEvent::Ended => StatusModel { is_playing: false, ..s },
    }
}

/// What is reported as the playback state: playing, or on the way to it.
pub open spec fn reported_active(s: StatusModel) -> bool {
    s.is_playing || s.is_transitioning
}

/// Whether an event sets the position rather than moving it on: a new track
/// starts at zero, and a seek goes where it is asked to and then where the
/// decoder arrives.
pub open spec fn sets_position(e: StatusEvent) -> bool {
    e is PlayRequested || e is SeekRequested || e is SeekLanded
}

/// Whether an event ends the report that playback is going on, or holds
/// it: a track that cannot be opened, and outside a transition a stop, the
/// end of the track, and a pause.
pub open spec fn halts(s: StatusModel, e: StatusEvent) -> bool {
    e is OpenFailed || ((e is Stopped || e is Ended || e is Paused) && !s.is_transitioning)
}

/// Duplicates an optional string.
pub fn copy_text(s: &Option<String>) -> (r: Option<String>)
    ensures
        opt_text(r) == opt_text(*s),
{
    match s {
        Some(t) => Some(t.clone()),
        None => None,
    }
}

impl AudioMetadata {
    /// A copy of the metadata.
    pub fn duplicate(&self) -> (r: Self)
        ensures
            r@ == self@,
    {
        AudioMetadata {
            duration: self.duration,
            title: copy_text(&self.title),
            artist: copy_text(&self.artist),
            album: copy_text(&self.album),
        }
    }
}

impl PlaybackStatus {
    /// The status before any track has been asked for.
    pub fn new() -> (s: Self)
        ensures
            s@ == initial_status(),
    {
        PlaybackStatus {
            is_playing: false,
            is_transitioning: false,
            duration: 0,
            position_samples: 0,
            sample_rate: INITIAL_SAMPLE_RATE,
            seek_to: None,
            metadata: None,
        }
    }

    /// The position as a time: the samples played over the sample rate. Zero
    /// at a rate of zero.
    pub fn position_secs(&self) -> (t: i64)
        ensures
            t == time_at(self.position_samples as int, self.sample_rate),
    {
        if self.sample_rate == 0 {
            return 0;
        }
        let wide: u128 = self.position_samples as u128 * 1_000_000 / self.sample_rate as u128;
        if wide > i64::MAX as u128 {
            i64::MAX
        } else {
            wide as i64
        }
    }

    /// Readies the status for a new track: nothing plays, a transition is
    /// under way, and position, duration, pending seek and metadata are
    /// cleared.
    pub fn reset_for_play(&mut self)
        ensures
            final(self)@ == after(old(self)@, StatusEvent::PlayRequested),
    {
        self.is_playing = false;
        self.is_transitioning = true;
        self.duration = 0;
        self.position_samples = 0;
        self.seek_to = None;
        self.metadata = None;
    }

    /// Records the duration and the tags of the track.
    pub fn track_known(&mut self, metadata: AudioMetadata)
        ensures
            final(self)@ == after(old(self)@, StatusEvent::TrackKnown(metadata@)),
    {
        self.duration = metadata.duration;
        self.metadata = Some(metadata);
    }

    /// Records that the decoder has set up its output, at the rate of the
    /// hardware stream if one was opened: the transition is over and the
    /// track plays.
    pub fn stream_started(&mut self, rate: Option<u32>)
        ensures
            final(self)@ == after(old(self)@, StatusEvent::StreamStarted(rate)),
    {
        match rate {
            Some(r) => {
                self.sample_rate = r;
            },
            None => {},
        }
        self.is_playing = true;
        self.is_transitioning = false;
    }

    /// Records that the track could not be opened: nothing plays and no
    /// transition is under way.
    pub fn open_failed(&mut self)
        ensures
            final(self)@ == after(old(self)@, StatusEvent::OpenFailed),
    {
        self.is_playing = false;
        self.is_transitioning = false;
    }

    /// Records a pause.
    pub fn paused(&mut self)
        ensures
            final(self)@ == after(old(self)@, StatusEvent::Paused),
    {
        self.is_playing = false;
    }

    /// Records that playback goes on.
    pub fn resumed(&mut self)
        ensures
            final(self)@ == after(old(self)@, StatusEvent::Resumed),
    {
        self.is_playing = true;
    }

    /// Records a stop.
    pub fn stopped(&mut self)
        ensures
            final(self)@ == after(old(self)@, StatusEvent::Stopped),
    {
        self.is_playing = false;
    }

    /// Asks the decoder to seek to `time`, and moves the position there at
    /// once, so that it can be shown before the decoder has arrived.
    pub fn request_seek(&mut self, time: i64)
        ensures
            final(self)@ == after(old(self)@, StatusEvent::SeekRequested(time as int)),
    {
        self.seek_to = Some(time);
        self.position_samples = sample_of(time, self.sample_rate);
    }

    /// Hands the pending seek to the decoder, if there is one.
    pub fn take_seek(&mut self) -> (target: Option<i64>)
        ensures
            target == old(self).seek_to,
            final(self)@ == after(old(self)@, StatusEvent::SeekTaken),
    {
        let target: Option<i64> = self.seek_to;
        self.seek_to = None;
        target
    }

    /// Records the sample at which the decoder has arrived after a seek.
    pub fn seek_landed(&mut self, sample: u64)
        ensures
            final(self)@ == after(old(self)@, StatusEvent::SeekLanded(sample as int)),
    {
        self.position_samples = sample;
    }

    /// Moves the position on by the frames that the hardware has played.
    pub fn frames_played(&mut self, frames: u64)
        ensures
            final(self)@ == after(old(self)@, StatusEvent::FramesPlayed(frames as int)),
    {
        self.position_samples = if frames > u64::MAX - self.position_samples {
            u64::MAX
        } else {
            self.position_samples + frames
        };
    }

    /// Records that playback is over.
    pub fn ended(&mut self)
        ensures
            final(self)@ == after(old(self)@, StatusEvent::Ended),
    {
        self.is_playing = false;
    }
}

/// The sample at which a time lies at a sample rate.
pub fn sample_of(time: i64, sample_rate: u32) -> (sample: u64)
    ensures
        sample == sample_at(time as int, sample_rate),
{
    if time <= 0 {
        return 0;
    }
    assert(time * sample_rate <= 0x7fff_ffff_ffff_ffff * 0xffff_ffff) by (nonlinear_arith)
        requires
            0 < time <= 0x7fff_ffff_ffff_ffff,
            0 <= sample_rate <= 0xffff_ffff,
    ;
    let wide: u128 = time as u128 * sample_rate as u128 / 1_000_000;
    if wide > u64::MAX as u128 {
        u64::MAX
    } else {
        wide as u64
    }
}

/// The position in time. Zero before the output rate is known.
pub fn get_position(status: &PlaybackStatus) -> (t: i64)
    ensures
        t == time_at(status@.position_samples, status@.sample_rate),
{
    status.position_secs()
}

/// The duration of the track.
pub fn get_duration(status: &PlaybackStatus) -> (t: i64)
    ensures
        t == status@.duration,
{
    status.duration
}

/// Whether playback is reported as going on: while the track plays, and
/// while one track is being replaced by another.
pub fn get_playback_state(status: &PlaybackStatus) -> (active: bool)
    ensures
        active == reported_active(status@),
{
    status.is_playing || status.is_transitioning
}

/// Tags and duration of the track, once they are known.
pub fn get_metadata(status: &PlaybackStatus) -> (m: Option<AudioMetadata>)
    ensures
        opt_metadata(m) == status@.metadata,
{
    match &status.metadata {
        Some(d) => Some(d.duplicate()),
        None => None,
    }
}

/// The position never falls, except where an event sets it: at the start of
/// a new track and at a seek.
pub proof fn law_position_monotone(s: StatusModel, e: StatusEvent)
    requires
        !sets_position(e),
        e is FramesPlayed ==> e->FramesPlayed_0 >= 0,
        s.position_samples <= u64::MAX,
    ensures
        after(s, e).position_samples >= s.position_samples,
{
}

/// A new track starts at position zero, and a seek that is asked for puts
/// the position at the sample of its target.
pub proof fn law_position_set(s: StatusModel, t: int)
    ensures
        after(s, StatusEvent::PlayRequested).position_samples == 0,
        after(s, StatusEvent::SeekRequested(t)).position_samples == sample_at(t, s.sample_rate),
{
}

/// Once a new track has been asked for, playback is reported as going on,
/// and it stays so through every event but those that end the report or hold
/// it.
pub proof fn law_reported_active(s: StatusModel, e: StatusEvent)
    requires
        reported_active(s),
    ensures
        reported_active(after(s, StatusEvent::PlayRequested)),
        reported_active(after(s, e)) <==> !halts(s, e),
{
}

/// Once a seek is asked for, the position in time is at most its target and
/// less than one sample and one microsecond before it, which is less than a
/// fifth of a second; and it stays there through a buffer of silence, such
/// as the one in which the ring buffer is flushed.
pub proof fn law_seek_position(s: StatusModel, t: int)
    requires
        time_ok(t),
        s.sample_rate > 0,
    ensures
        ({
            let now = after(s, StatusEvent::SeekRequested(t));
            let shown = time_at(now.position_samples, now.sample_rate);
            &&& shown <= t
            &&& (t - shown) * s.sample_rate < 1_000_000 + s.sample_rate
            &&& s.sample_rate >= 6 ==> t - shown < 200_000
            &&& after(now, StatusEvent::FramesPlayed(0)).position_samples == now.position_samples
        }),
{
    let r = s.sample_rate as int;
    let p = sample_at(t, s.sample_rate);
    if t > 0 {
        assert(t * r <= 0x100_0000_0000 * 0xffff_ffff) by (nonlinear_arith)
            requires
                0 < t <= 0x100_0000_0000,
                0 < r <= 0xffff_ffff,
        ;
        assert(t * r >= 0) by (nonlinear_arith)
            requires
                t > 0,
                r > 0,
        ;
        vstd::arithmetic::div_mod::lemma_fundamental_div_mod(t * r, 1_000_000);
        vstd::arithmetic::div_mod::lemma_mod_bound(t * r, 1_000_000);
        assert(0 <= p) by (nonlinear_arith)
            requires
                t * r == 1_000_000 * p + (t * r) % 1_000_000,
                0 <= (t * r) % 1_000_000 < 1_000_000,
                t * r >= 0,
        ;
        let q = p * 1_000_000 / r;
        vstd::arithmetic::div_mod::lemma_fundamental_div_mod(p * 1_000_000, r);
        vstd::arithmetic::div_mod::lemma_mod_bound(p * 1_000_000, r);
        assert(q * r <= t * r && (t - q) * r < 1_000_000 + r) by (nonlinear_arith)
            requires
                t * r == 1_000_000 * p + (t * r) % 1_000_000,
                0 <= (t * r) % 1_000_000 < 1_000_000,
                p * 1_000_000 == r * q + (p * 1_000_000) % r,
                0 <= (p * 1_000_000) % r < r,
        ;
        assert(q <= t) by (nonlinear_arith)
            requires
                q * r <= t * r,
                r > 0,
        ;
        if r >= 6 {
            assert(t - q < 200_000) by (nonlinear_arith)
                requires
                    (t - q) * r < 1_000_000 + r,
                    r >= 6,
            ;
        }
    } else {
        assert(0int / r == 0) by (nonlinear_arith)
            requires
                r > 0,
        ;
    }
}

} // verus!
