//! One decode session: what the decoder does next after each thing that
//! happens to it, from opening a track to the end of playback.
//!
//! The caller reads, decodes, sleeps and talks to the hardware; after each
//! such step it reports what came of it and is told what to do next.

use vstd::prelude::*;
use crate::search::{first_set, lemma_first_set_step};
use crate::status::{after, reported_active, sample_at, sample_of, AudioMetadata, MetadataModel,
    PlaybackStatus, StatusEvent, StatusModel};
use crate::text::opt_text;

verus! {

/// How often the decoder waits for the ring buffer to run empty at the end
/// of a track: ten seconds in all.
pub const DRAIN_WAITS: u32 = 200;

/// How long each such wait is, in milliseconds.
pub const DRAIN_WAIT_MILLIS: u64 = 50;

/// How long the decoder waits before it looks again whether the ring buffer
/// has been flushed, in milliseconds.
pub const FLUSH_WAIT_MILLIS: u64 = 5;

/// How long the decoder waits before it tries again to put a sample into a
/// full ring buffer, in microseconds.
pub const RING_FULL_WAIT_MICROS: u64 = 500;

/// What the decoder and the hardware callback tell each other.
#[derive(Clone, Copy, Debug, PartialEq, Eq, Structural)]
pub struct StreamContext {
    /// Whether the callback is asked to discard what the ring buffer holds.
    pub flush_requested: bool,
}

/// Where a decode session stands.
#[derive(Clone, Copy, Debug, PartialEq, Eq, Structural)]
pub enum SessionPhase {
    /// The track is being opened.
    Opening,
    /// Packets are read, decoded and queued.
    Running,
    /// The demuxer is seeking.
    Seeking,
    /// The decoder waits for the callback to flush the ring buffer.
    Flushing,
    /// The decoder waits for the ring buffer to run empty.
    Draining,
    /// The session is over.
    Closed,
}

/// A decode session.
#[derive(Clone, Copy, Debug, PartialEq, Eq, Structural)]
pub struct DecodeSession {
    /// Where the session stands.
    pub phase: SessionPhase,
    /// The track that is decoded.
    pub track_id: u32,
    /// Sample rate of the track.
    pub sample_rate: u32,
    /// How often the decoder has waited for the ring buffer to run empty.
    pub drain_waits: u32,
    /// Whether the track was read to its end.
    pub natural_end: bool,
}

/// What came of reading a packet.
#[derive(Clone, Copy, Debug, PartialEq, Eq, Structural)]
pub enum PacketOutcome {
    /// A packet of the given track.
    Packet(u32),
    /// The stream has ended.
    EndOfStream,
    /// Reading failed.
    Failed,
}

/// What came of decoding a packet.
#[derive(Clone, Copy, Debug, PartialEq, Eq, Structural)]
pub enum DecodeOutcome {
    /// Frames to be queued.
    Frames,
    /// The packet could not be decoded and is skipped.
    Skipped,
    /// The decoder cannot go on.
    Fatal,
}

/// What has happened to the decoder.
#[derive(Clone, Copy, Debug, PartialEq, Eq, Structural)]
pub enum SessionEvent {
    /// The track is open: this track of it is decoded at this sample rate,
    /// and the hardware stream could be opened or not.
    Opened { track_id: u32, sample_rate: u32, stream_open: bool },
    /// The track could not be opened.
    OpenFailed,
    /// The decoder is at the top of its loop, or waits for a flush, and has
    /// read the stop flag.
    LoopTop { stop: bool },
    /// The demuxer has sought, and arrived at this sample if it succeeded.
    SeekDone { landed: Option<u64> },
    /// The decoder has looked whether the flush is still pending.
    FlushPolled { pending: bool },
    /// A packet has been read.
    PacketRead(PacketOutcome),
    /// A packet has been decoded.
    PacketDecoded(DecodeOutcome),
    /// The frames have been queued, or the stop flag was seen while they
    /// were.
    FramesQueued { stopped: bool },
    /// The decoder has read the stop flag and looked whether the ring buffer
    /// is empty.
    DrainPolled { stop: bool, ring_empty: bool },
}

/// What the decoder does next.
#[derive(Clone, Copy, Debug, PartialEq, Eq, Structural)]
pub enum SessionAction {
    /// Read the stop flag and report it as the top of the loop.
    CheckStop,
    /// Seek the demuxer to this sample, reset the decoder, and report where
    /// it arrived.
    Seek { sample: u64 },
    /// Wait, then read the stop flag: report it as the top of the loop if it
    /// is set, and else report whether the flush is still pending.
    AwaitFlush,
    /// Read the next packet.
    ReadPacket,
    /// Decode the packet.
    Decode,
    /// Queue the frames, waiting where the ring buffer is full.
    QueueFrames,
    /// Report the stop flag and whether the ring buffer is empty.
    PollDrain,
    /// Wait, then report the stop flag and whether the ring buffer is empty.
    AwaitDrain,
    /// Stop the hardware stream and leave; before that, announce the end of
    /// playback if so told.
    Finish { emit_ended: bool },
    /// Leave.
    Exit,
}

/// The state after a step, and what to do next.
pub struct Outcome {
    /// The session.
    pub session: DecodeSession,
    /// The playback status.
    pub status: StatusModel,
    /// Whether a flush is asked for.
    pub flush: bool,
    /// Whether the hardware is to play.
    pub playing: bool,
    /// What to do next.
    pub action: SessionAction,
}

/// A session that ends without more ado.
pub open spec fn closed(s: DecodeSession) -> DecodeSession {
    DecodeSession { phase: SessionPhase::Closed, ..s }
}

/// A session that starts to drain the ring buffer.
pub open spec fn draining(s: DecodeSession, natural: bool) -> DecodeSession {
    DecodeSession { phase: SessionPhase::Draining, drain_waits: 0, natural_end: natural, ..s }
}

/// Whether an event is one that a session in this phase waits for.
pub open spec fn expected(phase: SessionPhase, e: SessionEvent) -> bool {
    match phase {
        SessionPhase::Opening => e is Opened || e is OpenFailed,
        SessionPhase::Running => e is LoopTop || e is PacketRead || e is PacketDecoded
            || e is FramesQueued,
        SessionPhase::Seeking => e is SeekDone,
        SessionPhase::Flushing => e is FlushPolled || e is LoopTop,
        SessionPhase::Draining => e is DrainPolled,
        SessionPhase::Closed => false,
    }
}

/// What a step makes of the session, the status and the flags, and what the
/// decoder does next.
///
/// Opening. Once the track is open the output rate is published, the
/// transition is over and the track plays. A track that cannot be opened
/// ends the session.
///
/// Running. At the top of the loop a stop ends the session; a pending seek
/// is taken up, the flush is asked for and the demuxer sent to the sample
/// of the target; else a packet is read. A packet of another track is passed
/// over. The end of the stream, a failed read and a fatal decoder error
/// start the drain; only the first counts as a natural end. A packet that
/// cannot be decoded is skipped. A stop seen while frames are queued ends
/// the session.
///
/// Seeking and flushing. Where the demuxer arrived becomes the position.
/// Nothing is read before the callback has cleared the flush. A stop seen
/// while the decoder waits for that ends the session.
///
/// Draining. Once the ring buffer is empty or has been waited for two
/// hundred times, playback is over, and its end is announced if it was a
/// natural one. Before that, a stop ends the session.
///
/// An event that the phase does not wait for ends the session.
pub open spec fn outcome_of(
    s: DecodeSession,
    st: StatusModel,
    flush: bool,
    playing: bool,
    e: SessionEvent,
) -> Outcome {
    let same = Outcome { session: s, status: st, flush, playing, action: SessionAction::Exit };
    let leave = Outcome { session: closed(s), ..same };
    if !expected(s.phase, e) {
        leave
    } else {
        match e {
            SessionEvent::Opened { track_id, sample_rate, stream_open } => Outcome {
                session: DecodeSession { phase: SessionPhase::Running, track_id, sample_rate, ..s },
                status: after(
                    st,
                    StatusEvent::StreamStarted(
                        if stream_open {
                            Some(sample_rate)
                        } else {
                            None
                        },
                    ),
                ),
                playing: true,
                action: SessionAction::CheckStop,
                ..same
            },
            SessionEvent::OpenFailed => Outcome {
                status: after(st, StatusEvent::OpenFailed),
                ..leave
            },
            SessionEvent::LoopTop { stop } => if stop {
                leave
            } else if s.phase == SessionPhase::Flushing {
                Outcome { action: SessionAction::AwaitFlush, ..same }
            } else {
                match st.seek_to {
                    Some(t) => Outcome {
                        session: DecodeSession { phase: SessionPhase::Seeking, ..s },
                        status: after(st, StatusEvent::SeekTaken),
                        flush: true,
                        action: SessionAction::Seek {
                            sample: sample_at(t, s.sample_rate) as u64,
                        },
                        ..same
                    },
                    None => Outcome { action: SessionAction::ReadPacket, ..same },
                }
            },
            SessionEvent::SeekDone { landed } => Outcome {
                session: DecodeSession { phase: SessionPhase::Flushing, ..s },
                status: match landed {
                    Some(sample) => after(st, StatusEvent::SeekLanded(sample as int)),
                    None => st,
                },
                action: SessionAction::AwaitFlush,
                ..same
            },
            SessionEvent::FlushPolled { pending } => if pending {
                Outcome { action: SessionAction::AwaitFlush, ..same }
            } else {
                Outcome {
                    session: DecodeSession { phase: SessionPhase::Running, ..s },
                    action: SessionAction::ReadPacket,
                    ..same
                }
            },
            SessionEvent::PacketRead(PacketOutcome::Packet(track)) => if track == s.track_id {
                Outcome { action: SessionAction::Decode, ..same }
            } else {
                Outcome { action: SessionAction::CheckStop, ..same }
            },
            SessionEvent::PacketRead(PacketOutcome::EndOfStream) => Outcome {
                session: draining(s, true),
                action: SessionAction::PollDrain,
                ..same
            },
            SessionEvent::PacketRead(PacketOutcome::Failed) => Outcome {
                session: draining(s, false),
                action: SessionAction::PollDrain,
                ..same
            },
            SessionEvent::PacketDecoded(DecodeOutcome::Frames) => Outcome {
                action: SessionAction::QueueFrames,
                ..same
            },
            SessionEvent::PacketDecoded(DecodeOutcome::Skipped) => Outcome {
                action: SessionAction::CheckStop,
                ..same
            },
            SessionEvent::PacketDecoded(DecodeOutcome::Fatal) => Outcome {
                session: draining(s, false),
                action: SessionAction::PollDrain,
                ..same
            },
            SessionEvent::FramesQueued { stopped } => if stopped {
                leave
            } else {
                Outcome { action: SessionAction::CheckStop, ..same }
            },
            SessionEvent::DrainPolled { stop, ring_empty } => if ring_empty || s.drain_waits
                >= DRAIN_WAITS {
                Outcome {
                    session: closed(s),
                    status: after(st, StatusEvent::Ended),
                    playing: false,
                    action: SessionAction::Finish { emit_ended: s.natural_end },
                    ..same
                }
            } else if stop {
                leave
            } else {
                Outcome {
                    session: DecodeSession { drain_waits: (s.drain_waits + 1) as u32, ..s },
                    action: SessionAction::AwaitDrain,
                    ..same
                }
            },
        }
    }
}

impl StreamContext {
    /// A context in which no flush is asked for.
    pub fn new() -> (c: Self)
        ensures
            c == (StreamContext { flush_requested: false }),
    {
        StreamContext { flush_requested: false }
    }
}

impl DecodeSession {
    /// A session that is about to open its track.
    pub fn new() -> (s: Self)
        ensures
            s == (DecodeSession {
                phase: SessionPhase::Opening,
                track_id: 0,
                sample_rate: 0,
                drain_waits: 0,
                natural_end: false,
            }),
    {
        DecodeSession {
            phase: SessionPhase::Opening,
            track_id: 0,
            sample_rate: 0,
            drain_waits: 0,
            natural_end: false,
        }
    }

    /// Whether the session waits for this event.
    pub fn expects(&self, event: SessionEvent) -> (r: bool)
        ensures
            r == expected(self.phase, event),
    {
        match self.phase {
            SessionPhase::Opening => match event {
                SessionEvent::Opened { .. } => true,
                SessionEvent::OpenFailed => true,
                _ => false,
            },
            SessionPhase::Running => match event {
                SessionEvent::LoopTop { .. } => true,
                SessionEvent::PacketRead(_) => true,
                SessionEvent::PacketDecoded(_) => true,
                SessionEvent::FramesQueued { .. } => true,
                _ => false,
            },
            SessionPhase::Seeking => match event {
                SessionEvent::SeekDone { .. } => true,
                _ => false,
            },
            SessionPhase::Flushing => match event {
                SessionEvent::FlushPolled { .. } => true,
                SessionEvent::LoopTop { .. } => true,
                _ => false,
            },
            SessionPhase::Draining => match event {
                SessionEvent::DrainPolled { .. } => true,
                _ => false,
            },
            SessionPhase::Closed => false,
        }
    }

    /// Takes note of what has happened and says what the decoder does next.
    pub fn step(
        &mut self,
        status: &mut PlaybackStatus,
        context: &mut StreamContext,
        playing: &mut bool,
        event: SessionEvent,
    ) -> (action: SessionAction)
        ensures
            (Outcome {
                session: *final(self),
                status: final(status)@,
                flush: final(context).flush_requested,
                playing: *final(playing),
                action,
            }) == outcome_of(
                *old(self),
                old(status)@,
                old(context).flush_requested,
                *old(playing),
                event,
            ),
    {
        if !self.expects(event) {
            self.phase = SessionPhase::Closed;
            return SessionAction::Exit;
        }
        match event {
            SessionEvent::Opened { track_id, sample_rate, stream_open } => {
                self.phase = SessionPhase::Running;
                self.track_id = track_id;
                self.sample_rate = sample_rate;
                status.stream_started(
                    if stream_open {
                        Some(sample_rate)
                    } else {
                        None
                    },
                );
                *playing = true;
                SessionAction::CheckStop
            },
            SessionEvent::OpenFailed => {
                self.phase = SessionPhase::Closed;
                status.open_failed();
                SessionAction::Exit
            },
            SessionEvent::LoopTop { stop } => {
                if stop {
                    self.phase = SessionPhase::Closed;
                    return SessionAction::Exit;
                }
                if self.phase == SessionPhase::Flushing {
                    return SessionAction::AwaitFlush;
                }
                match status.take_seek() {
                    Some(t) => {
                        self.phase = SessionPhase::Seeking;
                        context.flush_requested = true;
                        SessionAction::Seek { sample: sample_of(t, self.sample_rate) }
                    },
                    None => {
                        SessionAction::ReadPacket
                    },
                }
            },
            SessionEvent::SeekDone { landed } => {
                self.phase = SessionPhase::Flushing;
                match landed {
                    Some(sample) => {
                        status.seek_landed(sample);
                    },
                    None => {},
                }
                SessionAction::AwaitFlush
            },
            SessionEvent::FlushPolled { pending } => {
                if pending {
                    SessionAction::AwaitFlush
                } else {
                    self.phase = SessionPhase::Running;
                    SessionAction::ReadPacket
                }
            },
            SessionEvent::PacketRead(outcome) => match outcome {
                PacketOutcome::Packet(track) => {
                    if track == self.track_id {
                        SessionAction::Decode
                    } else {
                        SessionAction::CheckStop
                    }
                },
                PacketOutcome::EndOfStream => {
                    self.start_drain(true);
                    SessionAction::PollDrain
                },
                PacketOutcome::Failed => {
                    self.start_drain(false);
                    SessionAction::PollDrain
                },
            },
            SessionEvent::PacketDecoded(outcome) => match outcome {
                DecodeOutcome::Frames => SessionAction::QueueFrames,
                DecodeOutcome::Skipped => SessionAction::CheckStop,
                DecodeOutcome::Fatal => {
                    self.start_drain(false);
                    SessionAction::PollDrain
                },
            },
            SessionEvent::FramesQueued { stopped } => {
                if stopped {
                    self.phase = SessionPhase::Closed;
                    SessionAction::Exit
                } else {
                    SessionAction::CheckStop
                }
            },
            SessionEvent::DrainPolled { stop, ring_empty } => {
                if ring_empty || self.drain_waits >= DRAIN_WAITS {
                    self.phase = SessionPhase::Closed;
                    status.ended();
                    *playing = false;
                    SessionAction::Finish { emit_ended: self.natural_end }
                } else if stop {
                    self.phase = SessionPhase::Closed;
                    SessionAction::Exit
                } else {
                    self.drain_waits = self.drain_waits + 1;
                    SessionAction::AwaitDrain
                }
            },
        }
    }

    /// Starts to drain the ring buffer.
    fn start_drain(&mut self, natural: bool)
        ensures
            *final(self) == draining(*old(self), natural),
    {
        self.phase = SessionPhase::Draining;
        self.drain_waits = 0;
        self.natural_end = natural;
    }
}

/// The name under which the end of playback is announced.
pub fn ended_event() -> (name: &'static str)
    ensures
        name@ == "audioplayer://ended"@,
{
    "audioplayer://ended"
}

/// The end of playback is announced only once the ring buffer has run empty
/// or has been waited for ten seconds, only after a track that was read to
/// its end, and not before the status says that nothing plays.
pub proof fn law_ended_after_drain(
    s: DecodeSession,
    st: StatusModel,
    flush: bool,
    playing: bool,
    e: SessionEvent,
)
    requires
        outcome_of(s, st, flush, playing, e).action == (SessionAction::Finish { emit_ended: true }),
    ensures
        s.phase == SessionPhase::Draining,
        s.natural_end,
        e is DrainPolled,
        e->DrainPolled_ring_empty || s.drain_waits >= DRAIN_WAITS,
        !outcome_of(s, st, flush, playing, e).status.is_playing,
        !outcome_of(s, st, flush, playing, e).playing,
        outcome_of(s, st, flush, playing, e).session.phase == SessionPhase::Closed,
{
}

/// A seek that the decoder takes up asks for the flush before anything else
/// is read, and no packet is read while the flush is pending.
pub proof fn law_seek_flushes_first(
    s: DecodeSession,
    st: StatusModel,
    flush: bool,
    playing: bool,
    e: SessionEvent,
)
    ensures
        outcome_of(s, st, flush, playing, e).action is Seek ==> outcome_of(
            s,
            st,
            flush,
            playing,
            e,
        ).flush,
        s.phase == SessionPhase::Seeking ==> !(outcome_of(s, st, flush, playing, e).action
            is ReadPacket),
        s.phase == SessionPhase::Flushing && outcome_of(s, st, flush, playing, e).action
            is ReadPacket ==> e == (SessionEvent::FlushPolled { pending: false }),
{
}

/// A stop that is seen where the decoder waits ends the session: at the top
/// of the loop, while frames are queued into a full ring buffer, while a
/// flush is pending, and while the ring buffer drains.
pub proof fn law_stop_ends_session(s: DecodeSession, st: StatusModel, flush: bool, playing: bool)
    ensures
        s.phase == SessionPhase::Running || s.phase == SessionPhase::Flushing ==> outcome_of(
            s,
            st,
            flush,
            playing,
            SessionEvent::LoopTop { stop: true },
        ) == (Outcome {
            session: closed(s),
            status: st,
            flush,
            playing,
            action: SessionAction::Exit,
        }),
        s.phase == SessionPhase::Running ==> outcome_of(
            s,
            st,
            flush,
            playing,
            SessionEvent::FramesQueued { stopped: true },
        ) == (Outcome {
            session: closed(s),
            status: st,
            flush,
            playing,
            action: SessionAction::Exit,
        }),
        s.phase == SessionPhase::Draining && s.drain_waits < DRAIN_WAITS ==> outcome_of(
            s,
            st,
            flush,
            playing,
            SessionEvent::DrainPolled { stop: true, ring_empty: false },
        ) == (Outcome {
            session: closed(s),
            status: st,
            flush,
            playing,
            action: SessionAction::Exit,
        }),
{
}

/// A step moves the position only where the demuxer has arrived after a
/// seek, and it ends the report that playback is going on only where the
/// track cannot be opened or playback is over.
pub proof fn law_session_keeps_status(
    s: DecodeSession,
    st: StatusModel,
    flush: bool,
    playing: bool,
    e: SessionEvent,
)
    ensures
        outcome_of(s, st, flush, playing, e).status.position_samples == st.position_samples || (
        s.phase == SessionPhase::Seeking && e is SeekDone),
        reported_active(st) && !(outcome_of(s, st, flush, playing, e).action is Finish) && !(
        s.phase == SessionPhase::Opening && e is OpenFailed) ==> reported_active(
            outcome_of(s, st, flush, playing, e).status,
        ),
{
}

/// A session that is over stays over, and asks for nothing more.
pub proof fn law_closed_stays_closed(
    s: DecodeSession,
    st: StatusModel,
    flush: bool,
    playing: bool,
    e: SessionEvent,
)
    requires
        s.phase == SessionPhase::Closed,
    ensures
        outcome_of(s, st, flush, playing, e) == (Outcome {
            session: s,
            status: st,
            flush,
            playing,
            action: SessionAction::Exit,
        }),
{
}

/// Index of the first track that can be played, given for each track
/// whether it can.
pub fn first_audio_track(playable: &[bool]) -> (r: Option<usize>)
    ensures
        match r {
            Some(i) => i < playable.len() && first_set(playable@, 0, playable.len() as int) == Some(
                i as int,
            ),
            None => first_set(playable@, 0, playable.len() as int) is None,
        },
{
    let n: usize = playable.len();
    let mut i: usize = 0;
    while i < n
        invariant
            i <= n,
            n == playable.len(),
            first_set(playable@, 0, n as int) == first_set(playable@, i as int, n as int),
        decreases n - i,
    {
        if playable[i] {
            return Some(i);
        }
        proof {
            lemma_first_set_step(playable@, i as int, n as int);
        }
        i += 1;
    }
    None
}

/// What a tag says.
#[derive(Clone, Copy, Debug, PartialEq, Eq, Structural)]
pub enum TagKind {
    /// The title of the track.
    Title,
    /// The artist of the track.
    Artist,
    /// The album of the track.
    Album,
    /// Anything else.
    Other,
}

/// A tag of a track.
#[derive(Debug)]
pub struct Tag {
    /// What the tag says.
    pub kind: TagKind,
    /// Its text.
    pub value: String,
}

/// What a [`Tag`] holds.
pub struct TagModel {
    /// What the tag says.
    pub kind: TagKind,
    /// Its text.
    pub value: Seq<char>,
}

impl View for Tag {
    type V = TagModel;

    open spec fn view(&self) -> TagModel {
        TagModel { kind: self.kind, value: self.value@ }
    }
}

/// What each of the tags in a list holds.
pub open spec fn tag_models(tags: Seq<Tag>) -> Seq<TagModel> {
    Seq::new(tags.len(), |i: int| tags[i]@)
}

/// The text of the last of the first `n` tags that is of the given kind.
pub open spec fn last_tag(tags: Seq<TagModel>, kind: TagKind, n: int) -> Option<Seq<char>>
    decreases n,
{
    if n <= 0 {
        None
    } else if tags[n - 1].kind == kind {
        Some(tags[n - 1].value)
    } else {
        last_tag(tags, kind, n - 1)
    }
}

/// Duration and tags of a track as they are published: the last title, the
/// last artist and the last album among its tags.
pub open spec fn metadata_of(duration: int, tags: Seq<TagModel>) -> MetadataModel {
    MetadataModel {
        duration,
        title: last_tag(tags, TagKind::Title, tags.len() as int),
        artist: last_tag(tags, TagKind::Artist, tags.len() as int),
        album: last_tag(tags, TagKind::Album, tags.len() as int),
    }
}

/// What is published of a track whose duration is known: the duration, and
/// of its tags the last title, the last artist and the last album. Nothing
/// is published of a track whose duration is not known.
pub fn describe_track(duration: Option<i64>, tags: Vec<Tag>) -> (m: Option<AudioMetadata>)
    ensures
        duration is None ==> m is None,
        duration is Some ==> m is Some && m->0@ == metadata_of(
            duration->0 as int,
            tag_models(tags@),
        ),
{
    let d: i64 = match duration {
        Some(d) => d,
        None => {
            return None;
        },
    };
    let ghost all = tag_models(tags@);
    let mut title: Option<String> = None;
    let mut artist: Option<String> = None;
    let mut album: Option<String> = None;
    let mut rest: Vec<Tag> = tags;
    let ghost total = rest.len() as int;
    // The tags are taken from the back, so the first of a kind that is met
    // is the last of that kind in the list.
    while rest.len() > 0
        invariant
            rest.len() <= total,
            total == all.len(),
            tag_models(rest@) =~= all.take(rest.len() as int),
            title is None ==> last_tag(all, TagKind::Title, total) == last_tag(
                all,
                TagKind::Title,
                rest.len() as int,
            ),
            title is Some ==> last_tag(all, TagKind::Title, total) == opt_text(title),
            artist is None ==> last_tag(all, TagKind::Artist, total) == last_tag(
                all,
                TagKind::Artist,
                rest.len() as int,
            ),
            artist is Some ==> last_tag(all, TagKind::Artist, total) == opt_text(artist),
            album is None ==> last_tag(all, TagKind::Album, total) == last_tag(
                all,
                TagKind::Album,
                rest.len() as int,
            ),
            album is Some ==> last_tag(all, TagKind::Album, total) == opt_text(album),
        decreases rest.len(),
    {
        let ghost before = rest@;
        let tag: Tag = match rest.pop() {
            Some(t) => t,
            None => {
                return None;
            },
        };
        proof {
            let n = before.len() as int;
            assert(tag_models(before)[n - 1] == all[n - 1]);
        }
        match tag.kind {
            TagKind::Title => {
                if title.is_none() {
                    title = Some(tag.value);
                }
            },
            TagKind::Artist => {
                if artist.is_none() {
                    artist = Some(tag.value);
                }
            },
            TagKind::Album => {
                if album.is_none() {
                    album = Some(tag.value);
                }
            },
            TagKind::Other => {},
        }
    }
    Some(AudioMetadata { duration: d, title, artist, album })
}

/// How many stereo frames a buffer of `len` interleaved samples in
/// `channels` channels holds: one for each frame begun.
pub open spec fn frames_held(len: int, channels: int) -> int {
    (len + channels - 1) / channels
}

/// The `k`-th stereo frame of a buffer of interleaved samples. A mono sample
/// goes to both sides. Of more channels the first two are taken; a frame
/// that breaks off after its first sample has that sample on both sides.
pub open spec fn stereo_frame(samples: Seq<u32>, channels: int, k: int) -> (u32, u32) {
    let i = k * channels;
    if channels == 1 || i + 1 >= samples.len() {
        (samples[i], samples[i])
    } else {
        (samples[i], samples[i + 1])
    }
}

/// The stereo frames of a buffer of interleaved samples.
pub open spec fn stereo_of(samples: Seq<u32>, channels: int) -> Seq<(u32, u32)> {
    Seq::new(
        frames_held(samples.len() as int, channels) as nat,
        |k: int| stereo_frame(samples, channels, k),
    )
}

/// The stereo frames of a buffer of interleaved samples in `channels`
/// channels: a mono sample goes to both sides, and of more than two channels
/// the first two are taken.
pub fn stereo_frames(samples: &[u32], channels: usize) -> (frames: Vec<(u32, u32)>)
    requires
        channels >= 1,
    ensures
        frames@ == stereo_of(samples@, channels as int),
        channels == 1 ==> frames.len() == samples.len() && forall|k: int|
            0 <= k < frames.len() ==> (#[trigger] frames[k]).0 == samples[k] && frames[k].1
                == samples[k],
{
    let n: usize = samples.len();
    let mut frames: Vec<(u32, u32)> = Vec::new();
    let mut i: usize = 0;
    assert(0 * channels == 0) by (nonlinear_arith);
    while i < n
        invariant
            n == samples.len(),
            channels >= 1,
            i < n || n == 0,
            i <= n,
            i == frames.len() * channels,
            forall|k: int|
                0 <= k < frames.len() ==> #[trigger] frames[k] == stereo_frame(
                    samples@,
                    channels as int,
                    k,
                ),
        decreases n - i,
    {
        let left: u32 = samples[i];
        let right: u32 = if channels == 1 || i + 1 >= n {
            left
        } else {
            samples[i + 1]
        };
        let ghost count = frames.len() as int;
        frames.push((left, right));
        assert((count + 1) * channels == count * channels + channels) by (nonlinear_arith);
        if channels >= n - i {
            proof {
                lemma_frames_held(n as int, channels as int, count + 1);
            }
            proof {
                if channels == 1 {
                    assert forall|k: int| 0 <= k < frames.len() implies (#[trigger] frames[k]).0
                        == samples[k] && frames[k].1 == samples[k] by {
                    }
                }
            }
            return frames;
        }
        i += channels;
    }
    proof {
        assert(frames.len() == 0) by (nonlinear_arith)
            requires
                frames.len() * channels == 0,
                channels >= 1,
        ;
        assert(frames_held(0, channels as int) == 0) by (nonlinear_arith)
            requires
                channels >= 1,
                frames_held(0, channels as int) == (0 + channels - 1) / (channels as int),
        ;
    }
    frames
}

/// The two sides of every frame made of mono samples are the same sample.
pub proof fn law_mono_sides_equal(samples: Seq<u32>)
    ensures
        stereo_of(samples, 1).len() == samples.len(),
        forall|k: int|
            0 <= k < samples.len() ==> (#[trigger] stereo_of(samples, 1)[k]) == (
                samples[k],
                samples[k],
            ),
{
}

/// A buffer whose last frame is the `count`-th holds `count` frames.
proof fn lemma_frames_held(len: int, channels: int, count: int)
    requires
        channels >= 1,
        count >= 1,
        (count - 1) * channels < len <= count * channels,
    ensures
        frames_held(len, channels) == count,
{
    let r = len + channels - 1 - channels * count;
    assert(r == len - 1 - (count - 1) * channels) by (nonlinear_arith)
        requires
            r == len + channels - 1 - channels * count,
    ;
    vstd::arithmetic::div_mod::lemma_fundamental_div_mod_converse(
        len + channels - 1,
        channels,
        count,
        r,
    );
}

} // verus!
