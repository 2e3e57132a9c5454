//! The player supervisor: what each command does to the flags and to the
//! playback status, and what is left for the caller to set going.

use vstd::prelude::*;
use crate::status::{after, PlaybackStatus, StatusEvent, StatusModel};
use crate::units::UNIT;

verus! {

/// Samples that the ring buffer between decoder and hardware holds: two
/// seconds of stereo at 192 kHz.
pub const RING_CAPACITY: usize = 768_000;

/// Least time to wait between stopping one session and starting the next,
/// in milliseconds.
pub const RESTART_WAIT_MILLIS: u64 = 50;

/// A command to the player.
#[derive(Debug)]
pub enum AudioCommand {
    /// Play the track at this address.
    Play(String),
    /// Get the track at this address ready.
    Preload(String),
    /// Hold playback.
    Pause,
    /// Go on with playback.
    Resume,
    /// End playback.
    Stop,
    /// Set the volume, in millionths.
    SetVolume(u32),
    /// Go to this time.
    Seek(i64),
}

/// What is left for the caller to do after a command.
#[derive(Debug)]
pub enum SupervisorAction {
    /// Nothing.
    Idle,
    /// Stop the hardware stream, wait, and start a session for this address.
    Restart(String),
    /// Get the track at this address ready in the background.
    Preload(String),
}

/// What the supervisor keeps for itself.
#[derive(Clone, Copy, Debug, PartialEq, Eq, Structural)]
pub struct Supervisor {
    /// Volume in millionths.
    pub volume: u32,
    /// Whether the hardware is to play.
    pub playing: bool,
    /// Whether the decoder is to stop.
    pub decode_stop: bool,
}

/// What a command asks for.
pub enum CommandModel {
    /// Play the track at this address.
    Play(Seq<char>),
    /// Get the track at this address ready.
    Preload(Seq<char>),
    /// Hold playback.
    Pause,
    /// Go on with playback.
    Resume,
    /// End playback.
    Stop,
    /// Set the volume.
    SetVolume(u32),
    /// Go to this time.
    Seek(int),
}

/// What is left for the caller to do.
pub enum ActionModel {
    /// Nothing.
    Idle,
    /// Stop the hardware stream, wait, and start a session for this address.
    Restart(Seq<char>),
    /// Get the track at this address ready in the background.
    Preload(Seq<char>),
}

impl View for AudioCommand {
    type V = CommandModel;

    open spec fn view(&self) -> CommandModel {
        match self {
            AudioCommand::Play(url) => CommandModel::Play(url@),
            AudioCommand::Preload(url) => CommandModel::Preload(url@),
            AudioCommand::Pause => CommandModel::Pause,
            AudioCommand::Resume => CommandModel::Resume,
            AudioCommand::Stop => CommandModel::Stop,
            AudioCommand::SetVolume(v) => CommandModel::SetVolume(*v),
            AudioCommand::Seek(t) => CommandModel::Seek(*t as int),
        }
    }
}

impl View for SupervisorAction {
    type V = ActionModel;

    open spec fn view(&self) -> ActionModel {
        match self {
            SupervisorAction::Idle => ActionModel::Idle,
            SupervisorAction::Restart(url) => ActionModel::Restart(url@),
            SupervisorAction::Preload(url) => ActionModel::Preload(url@),
        }
    }
}

/// The supervisor after a command.
pub open spec fn supervisor_after(s: Supervisor, c: CommandModel) -> Supervisor {
    match c {
        CommandModel::Play(_) => Supervisor { playing: false, decode_stop: true, ..s },
        CommandModel::Preload(_) => s,
        CommandModel::Pause => Supervisor { playing: false, ..s },
        CommandModel::Resume => Supervisor { playing: true, ..s },
        CommandModel::Stop => Supervisor { playing: false, decode_stop: true, ..s },
        CommandModel::SetVolume(v) => Supervisor { volume: clamped_volume(v as int), ..s },
        CommandModel::Seek(_) => s,
    }
}

/// The playback status after a command.
pub open spec fn status_after(st: StatusModel, c: CommandModel) -> StatusModel {
    match c {
        CommandModel::Pause => after(st, StatusEvent::Paused),
        CommandModel::Resume => after(st, StatusEvent::Resumed),
        CommandModel::Stop => after(st, StatusEvent::Stopped),
        CommandModel::Seek(t) => after(st, StatusEvent::SeekRequested(t)),
        _ => st,
    }
}

/// What a command leaves for the caller to do.
pub open spec fn action_after(c: CommandModel) -> ActionModel {
    match c {
        CommandModel::Play(url) => ActionModel::Restart(url),
        CommandModel::Preload(url) => ActionModel::Preload(url),
        _ => ActionModel::Idle,
    }
}

/// Whether a command is still carried out when it arrives while a session
/// is being set up: a change of volume, and a pause.
pub open spec fn survives_setup(c: CommandModel) -> bool {
    c is SetVolume || c is Pause
}

/// A volume held between nothing and full scale.
pub open spec fn clamped_volume(volume: int) -> u32 {
    if volume < 0 {
        0
    } else if volume > UNIT {
        UNIT
    } else {
        volume as u32
    }
}

impl Supervisor {
    /// The supervisor before any command: full volume, nothing plays, and
    /// the decoder is not asked to stop.
    pub fn new() -> (s: Self)
        ensures
            s == (Supervisor { volume: UNIT, playing: false, decode_stop: false }),
    {
        Supervisor { volume: UNIT, playing: false, decode_stop: false }
    }

    /// Carries out a command. `Play` only ends what plays: it clears the
    /// playing flag and asks the decoder to stop, and leaves it to the caller
    /// to stop the hardware stream, to wait, and to call
    /// [`Self::start_session`]. `Preload` is left to the caller altogether.
    /// A volume is held at full scale at most.
    pub fn handle_command(&mut self, status: &mut PlaybackStatus, command: AudioCommand) -> (action:
        SupervisorAction)
        ensures
            *final(self) == supervisor_after(*old(self), command@),
            final(status)@ == status_after(old(status)@, command@),
            action@ == action_after(command@),
    {
        match command {
            AudioCommand::Play(url) => {
                self.playing = false;
                self.decode_stop = true;
                SupervisorAction::Restart(url)
            },
            AudioCommand::Preload(url) => SupervisorAction::Preload(url),
            AudioCommand::Pause => {
                self.playing = false;
                status.paused();
                SupervisorAction::Idle
            },
            AudioCommand::Resume => {
                self.playing = true;
                status.resumed();
                SupervisorAction::Idle
            },
            AudioCommand::Stop => {
                self.playing = false;
                self.decode_stop = true;
                status.stopped();
                SupervisorAction::Idle
            },
            AudioCommand::SetVolume(v) => {
                self.volume = hold_volume(v);
                SupervisorAction::Idle
            },
            AudioCommand::Seek(t) => {
                status.request_seek(t);
                SupervisorAction::Idle
            },
        }
    }

    /// Starts a session once the old one has had time to stop: the decoder
    /// is no longer asked to stop, and the status is readied for a new track.
    pub fn start_session(&mut self, status: &mut PlaybackStatus)
        ensures
            *final(self) == (Supervisor { decode_stop: false, ..*old(self) }),
            final(status)@ == after(old(status)@, StatusEvent::PlayRequested),
    {
        self.decode_stop = false;
        status.reset_for_play();
    }

    /// Carries out a command that arrived while a session was being set up:
    /// a change of volume or a pause. Any other command is dropped.
    pub fn apply_queued(&mut self, status: &mut PlaybackStatus, command: AudioCommand)
        ensures
            survives_setup(command@) ==> *final(self) == supervisor_after(*old(self), command@)
                && final(status)@ == status_after(old(status)@, command@),
            !survives_setup(command@) ==> *final(self) == *old(self) && final(status)@ == old(
                status,
            )@,
    {
        match command {
            AudioCommand::SetVolume(v) => {
                self.volume = hold_volume(v);
            },
            AudioCommand::Pause => {
                self.playing = false;
                status.paused();
            },
            _ => {},
        }
    }
}

/// A volume that a command carries, held at full scale at most.
pub fn hold_volume(volume: u32) -> (held: u32)
    ensures
        held == clamped_volume(volume as int),
{
    if volume > UNIT {
        UNIT
    } else {
        volume
    }
}

/// The command that plays the track at `url`.
pub fn play_audio(url: String) -> (c: AudioCommand)
    ensures
        c@ == CommandModel::Play(url@),
{
    AudioCommand::Play(url)
}

/// The command that gets the track at `url` ready.
pub fn preload_audio(url: String) -> (c: AudioCommand)
    ensures
        c@ == CommandModel::Preload(url@),
{
    AudioCommand::Preload(url)
}

/// The command that holds playback.
pub fn pause_audio() -> (c: AudioCommand)
    ensures
        c@ == CommandModel::Pause,
{
    AudioCommand::Pause
}

/// The command that goes on with playback.
pub fn resume_audio() -> (c: AudioCommand)
    ensures
        c@ == CommandModel::Resume,
{
    AudioCommand::Resume
}

/// The command that ends playback.
pub fn stop_audio() -> (c: AudioCommand)
    ensures
        c@ == CommandModel::Stop,
{
    AudioCommand::Stop
}

/// The command that sets the volume to `volume` millionths, held between
/// nothing and full scale.
pub fn set_volume(volume: i64) -> (c: AudioCommand)
    ensures
        c@ == CommandModel::SetVolume(clamped_volume(volume as int)),
{
    let held: u32 = if volume < 0 {
        0
    } else if volume > UNIT as i64 {
        UNIT
    } else {
        volume as u32
    };
    AudioCommand::SetVolume(held)
}

/// The command that goes to `time`.
pub fn seek_audio(time: i64) -> (c: AudioCommand)
    ensures
        c@ == CommandModel::Seek(time as int),
{
    AudioCommand::Seek(time)
}

/// Of all commands only a seek moves the position, and it moves it to the
/// sample of its target.
pub proof fn law_commands_keep_position(st: StatusModel, c: CommandModel)
    ensures
        !(c is Seek) ==> status_after(st, c).position_samples == st.position_samples,
        c is Seek ==> status_after(st, c).position_samples == crate::status::sample_at(
            c->Seek_0,
            st.sample_rate,
        ),
{
}

/// After a pause the hardware is not to play, until playback is resumed; a
/// pause and a resume leave the position where it is.
pub proof fn law_pause_holds(s: Supervisor, st: StatusModel)
    ensures
        !supervisor_after(s, CommandModel::Pause).playing,
        supervisor_after(s, CommandModel::Resume).playing,
        status_after(st, CommandModel::Pause).position_samples == st.position_samples,
        status_after(st, CommandModel::Resume).position_samples == st.position_samples,
        forall|c: CommandModel|
            !(c is Resume) ==> !(#[trigger] supervisor_after(
                supervisor_after(s, CommandModel::Pause),
                c,
            )).playing,
{
}

} // verus!
