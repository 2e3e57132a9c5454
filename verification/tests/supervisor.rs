use audio_core::status::PlaybackStatus;
use audio_core::supervisor::{
    pause_audio, play_audio, preload_audio, resume_audio, seek_audio, set_volume, stop_audio,
    AudioCommand, Supervisor, SupervisorAction, RING_CAPACITY,
};

fn volume_of(c: AudioCommand) -> u32 {
    match c {
        AudioCommand::SetVolume(v) => v,
        _ => panic!("not a volume command"),
    }
}

#[test]
fn supervisor_ring_holds_two_seconds_of_stereo_at_192_khz() {
    assert_eq!(RING_CAPACITY, 192_000 * 2 * 2);
}

#[test]
fn supervisor_starts_at_full_volume() {
    let s = Supervisor::new();
    assert_eq!(s.volume, 1_000_000);
    assert!(!s.playing);
    assert!(!s.decode_stop);
}

#[test]
fn commands_are_built_from_their_arguments() {
    assert!(matches!(play_audio("a.flac".to_string()), AudioCommand::Play(u) if u == "a.flac"));
    assert!(matches!(preload_audio("b.mp3".to_string()), AudioCommand::Preload(u) if u == "b.mp3"));
    assert!(matches!(pause_audio(), AudioCommand::Pause));
    assert!(matches!(resume_audio(), AudioCommand::Resume));
    assert!(matches!(stop_audio(), AudioCommand::Stop));
    assert!(matches!(seek_audio(30_000_000), AudioCommand::Seek(30_000_000)));
    assert!(matches!(seek_audio(-1), AudioCommand::Seek(-1)));
}

#[test]
fn volume_is_held_between_nothing_and_full_scale() {
    assert_eq!(volume_of(set_volume(500_000)), 500_000);
    assert_eq!(volume_of(set_volume(0)), 0);
    assert_eq!(volume_of(set_volume(1_000_000)), 1_000_000);
    assert_eq!(volume_of(set_volume(1_000_001)), 1_000_000);
    assert_eq!(volume_of(set_volume(-1)), 0);
    assert_eq!(volume_of(set_volume(i64::MAX)), 1_000_000);
    assert_eq!(volume_of(set_volume(i64::MIN)), 0);
}

#[test]
fn play_stops_what_plays_and_asks_for_a_restart() {
    let mut s = Supervisor::new();
    let mut st = PlaybackStatus::new();
    s.playing = true;
    st.is_playing = true;
    st.position_samples = 777;
    let action = s.handle_command(&mut st, play_audio("http://host/a.mp3".to_string()));
    assert!(matches!(action, SupervisorAction::Restart(u) if u == "http://host/a.mp3"));
    assert!(!s.playing);
    assert!(s.decode_stop);
    // The status is readied only when the session starts.
    assert!(st.is_playing);
    assert_eq!(st.position_samples, 777);
    s.start_session(&mut st);
    assert!(!s.decode_stop);
    assert!(!s.playing);
    assert!(!st.is_playing);
    assert!(st.is_transitioning);
    assert_eq!(st.position_samples, 0);
}

#[test]
fn preload_is_left_to_the_caller() {
    let mut s = Supervisor::new();
    let mut st = PlaybackStatus::new();
    let action = s.handle_command(&mut st, preload_audio("next.flac".to_string()));
    assert!(matches!(action, SupervisorAction::Preload(u) if u == "next.flac"));
    assert_eq!(s, Supervisor::new());
    assert!(!st.is_transitioning);
}

#[test]
fn pause_and_resume_flip_the_playing_flag() {
    let mut s = Supervisor::new();
    let mut st = PlaybackStatus::new();
    st.position_samples = 4_410;
    assert!(matches!(s.handle_command(&mut st, resume_audio()), SupervisorAction::Idle));
    assert!(s.playing && st.is_playing);
    assert!(matches!(s.handle_command(&mut st, pause_audio()), SupervisorAction::Idle));
    assert!(!s.playing && !st.is_playing);
    assert_eq!(st.position_samples, 4_410);
    s.handle_command(&mut st, set_volume(250_000));
    s.handle_command(&mut st, seek_audio(0));
    assert!(!s.playing);
    s.handle_command(&mut st, resume_audio());
    assert!(s.playing && st.is_playing);
}

#[test]
fn stop_asks_the_decoder_to_stop() {
    let mut s = Supervisor::new();
    let mut st = PlaybackStatus::new();
    s.handle_command(&mut st, resume_audio());
    st.position_samples = 9_000;
    assert!(matches!(s.handle_command(&mut st, stop_audio()), SupervisorAction::Idle));
    assert!(!s.playing);
    assert!(s.decode_stop);
    assert!(!st.is_playing);
    assert_eq!(st.position_samples, 9_000);
}

#[test]
fn volume_and_seek_commands_are_carried_out() {
    let mut s = Supervisor::new();
    let mut st = PlaybackStatus::new();
    s.handle_command(&mut st, set_volume(333_000));
    assert_eq!(s.volume, 333_000);
    s.handle_command(&mut st, AudioCommand::SetVolume(3_000_000));
    assert_eq!(s.volume, 1_000_000);
    s.apply_queued(&mut st, AudioCommand::SetVolume(u32::MAX));
    assert_eq!(s.volume, 1_000_000);
    s.handle_command(&mut st, set_volume(333_000));
    s.handle_command(&mut st, seek_audio(2_000_000));
    assert_eq!(st.seek_to, Some(2_000_000));
    assert_eq!(st.position_samples, 88_200);
}

#[test]
fn only_volume_and_pause_survive_the_setup_of_a_session() {
    let mut s = Supervisor::new();
    let mut st = PlaybackStatus::new();
    s.playing = true;
    s.start_session(&mut st);
    s.apply_queued(&mut st, set_volume(100_000));
    assert_eq!(s.volume, 100_000);
    s.apply_queued(&mut st, seek_audio(9_000_000));
    assert_eq!(st.seek_to, None);
    s.apply_queued(&mut st, stop_audio());
    assert!(!s.decode_stop);
    s.apply_queued(&mut st, play_audio("other".to_string()));
    assert!(s.playing);
    s.apply_queued(&mut st, resume_audio());
    assert!(!st.is_playing);
    s.apply_queued(&mut st, pause_audio());
    assert!(!s.playing);
    assert!(!st.is_playing);
    assert!(st.is_transitioning);
}
