//! The decisions of a music player and DJ-style mixing core, verified.
//!
//! The library holds no floating-point numbers. A time is a signed number of
//! microseconds; a level, ratio, gain or confidence is an unsigned number of
//! millionths of full scale; a tempo is the length of one beat; a sample in
//! the ring buffer is a 32-bit word that is carried and never looked into.
//!
//! The analyzer ([`analyzer`], with [`envelope`], [`detect`], [`tempo`],
//! [`key`], [`cuts`] and [`camelot`]) turns the envelopes, the chroma vector
//! and the loudness of a decoded track into an analysis, and the planner
//! ([`transition`]) turns two analyses into a proposal for a transition.
//!
//! The player is laid out as the steps that its threads take: the commands
//! of the supervisor ([`supervisor`]), the steps of a decode session
//! ([`session`]), the hardware callback ([`callback`]) over the ring buffer
//! ([`ring`]), the playback status that they share ([`status`]), and the
//! sources that tracks are read from ([`source`], [`stream`]). Whoever
//! drives them reads, sleeps and talks to the hardware.

pub mod units;
pub mod text;
pub mod camelot;
pub mod search;
pub mod detect;
pub mod tempo;
pub mod key;
pub mod cuts;
pub mod analyzer;
pub mod envelope;
pub mod transition;
pub mod status;
pub mod supervisor;
pub mod session;
pub mod stream;
pub mod source;
pub mod ring;
pub mod callback;
pub mod plugin;
pub mod lyrics;

pub use analyzer::{analyze_audio_file, analyze_audio_file_head, AudioAnalysis};
pub use camelot::{get_camelot_key, is_camelot_compatible};
pub use lyrics::LyricFile;
pub use plugin::NativeMediaPlugin;
pub use session::StreamContext;
pub use status::{
    get_duration, get_metadata, get_playback_state, get_position, AudioMetadata,
};
pub use supervisor::{
    pause_audio, play_audio, preload_audio, resume_audio, seek_audio, set_volume, stop_audio,
    AudioCommand,
};
pub use transition::{
    suggest_long_mix, suggest_transition, AdvancedTransition, AutomationPoint,
    TransitionProposal,
};
