use audio_core::status::{
    get_duration, get_metadata, get_playback_state, get_position, sample_of, AudioMetadata,
    PlaybackStatus,
};

fn metadata() -> AudioMetadata {
    AudioMetadata {
        duration: 215_000_000,
        title: Some("Title".to_string()),
        artist: None,
        album: Some("Album".to_string()),
    }
}

#[test]
fn status_starts_idle_at_44100_hertz() {
    let s = PlaybackStatus::new();
    assert!(!s.is_playing);
    assert!(!s.is_transitioning);
    assert_eq!(s.duration, 0);
    assert_eq!(s.position_samples, 0);
    assert_eq!(s.sample_rate, 44_100);
    assert_eq!(s.seek_to, None);
    assert!(s.metadata.is_none());
    assert!(!get_playback_state(&s));
    assert_eq!(get_position(&s), 0);
    assert_eq!(get_duration(&s), 0);
    assert!(get_metadata(&s).is_none());
}

#[test]
fn status_position_in_time_is_samples_over_rate() {
    let mut s = PlaybackStatus::new();
    s.position_samples = 44_100;
    assert_eq!(s.position_secs(), 1_000_000);
    s.position_samples = 66_150;
    assert_eq!(get_position(&s), 1_500_000);
    s.position_samples = 1;
    assert_eq!(s.position_secs(), 22);
    s.sample_rate = 0;
    assert_eq!(s.position_secs(), 0);
    s.sample_rate = 1;
    s.position_samples = u64::MAX;
    assert_eq!(s.position_secs(), i64::MAX);
}

#[test]
fn status_sample_of_a_time() {
    assert_eq!(sample_of(1_000_000, 44_100), 44_100);
    assert_eq!(sample_of(30_000_000, 48_000), 1_440_000);
    assert_eq!(sample_of(1, 44_100), 0);
    assert_eq!(sample_of(23, 44_100), 1);
    assert_eq!(sample_of(0, 44_100), 0);
    assert_eq!(sample_of(-5_000_000, 44_100), 0);
    assert_eq!(sample_of(5_000_000, 0), 0);
    assert_eq!(sample_of(i64::MAX, u32::MAX), u64::MAX);
}

#[test]
fn status_play_resets_everything_but_the_rate() {
    let mut s = PlaybackStatus::new();
    s.stream_started(Some(96_000));
    s.track_known(metadata());
    s.frames_played(1_000);
    s.request_seek(5_000_000);
    s.reset_for_play();
    assert!(!s.is_playing);
    assert!(s.is_transitioning);
    assert_eq!(s.duration, 0);
    assert_eq!(s.position_samples, 0);
    assert_eq!(s.seek_to, None);
    assert!(s.metadata.is_none());
    assert_eq!(s.sample_rate, 96_000);
    assert!(get_playback_state(&s));
}

#[test]
fn status_track_known_publishes_duration_and_tags() {
    let mut s = PlaybackStatus::new();
    s.track_known(metadata());
    assert_eq!(get_duration(&s), 215_000_000);
    let m = get_metadata(&s).unwrap();
    assert_eq!(m.duration, 215_000_000);
    assert_eq!(m.title, Some("Title".to_string()));
    assert_eq!(m.artist, None);
    assert_eq!(m.album, Some("Album".to_string()));
    // The status keeps its own copy.
    assert_eq!(s.metadata.as_ref().unwrap().title, Some("Title".to_string()));
}

#[test]
fn status_stream_start_ends_the_transition() {
    let mut s = PlaybackStatus::new();
    s.reset_for_play();
    s.stream_started(Some(48_000));
    assert!(s.is_playing);
    assert!(!s.is_transitioning);
    assert_eq!(s.sample_rate, 48_000);
    let mut without = PlaybackStatus::new();
    without.reset_for_play();
    without.stream_started(None);
    assert!(without.is_playing);
    assert!(!without.is_transitioning);
    assert_eq!(without.sample_rate, 44_100);
}

#[test]
fn status_open_failure_leaves_nothing_going() {
    let mut s = PlaybackStatus::new();
    s.reset_for_play();
    s.open_failed();
    assert!(!s.is_playing);
    assert!(!s.is_transitioning);
    assert!(!get_playback_state(&s));
}

#[test]
fn status_seek_moves_the_position_at_once() {
    let mut s = PlaybackStatus::new();
    s.stream_started(Some(48_000));
    s.frames_played(96_000);
    s.request_seek(30_000_000);
    assert_eq!(s.seek_to, Some(30_000_000));
    assert_eq!(s.position_samples, 1_440_000);
    assert_eq!(get_position(&s), 30_000_000);
    assert_eq!(s.take_seek(), Some(30_000_000));
    assert_eq!(s.seek_to, None);
    assert_eq!(s.take_seek(), None);
    s.seek_landed(1_439_744);
    assert_eq!(s.position_samples, 1_439_744);
    s.request_seek(-1);
    assert_eq!(s.position_samples, 0);
}

#[test]
fn status_position_shown_after_a_seek_is_within_200_ms() {
    for rate in [6u32, 8_000, 22_050, 44_100, 48_000, 96_000, 192_000] {
        for target in [0i64, 1, 999, 12_345_678, 30_000_000, 3_599_999_999] {
            let mut s = PlaybackStatus::new();
            s.stream_started(Some(rate));
            s.request_seek(target);
            let shown = get_position(&s);
            assert!(shown <= target);
            assert!(target - shown < 200_000);
        }
    }
}

#[test]
fn status_frames_played_move_the_position_on() {
    let mut s = PlaybackStatus::new();
    s.frames_played(480);
    s.frames_played(0);
    s.frames_played(480);
    assert_eq!(s.position_samples, 960);
    s.position_samples = u64::MAX - 5;
    s.frames_played(10);
    assert_eq!(s.position_samples, u64::MAX);
}

#[test]
fn status_position_falls_only_at_play_and_seek() {
    let mut s = PlaybackStatus::new();
    s.reset_for_play();
    s.stream_started(Some(44_100));
    s.frames_played(5_000);
    let mut last = s.position_samples;
    s.track_known(metadata());
    assert!(s.position_samples >= last);
    s.paused();
    assert!(s.position_samples >= last);
    s.resumed();
    assert!(s.position_samples >= last);
    s.frames_played(100);
    assert!(s.position_samples >= last);
    last = s.position_samples;
    s.take_seek();
    assert!(s.position_samples >= last);
    s.stopped();
    assert!(s.position_samples >= last);
    s.ended();
    assert!(s.position_samples >= last);
    s.open_failed();
    assert!(s.position_samples >= last);
    s.stream_started(None);
    assert_eq!(s.position_samples, last);
    s.request_seek(10_000);
    assert_eq!(s.position_samples, 441);
    s.reset_for_play();
    assert_eq!(s.position_samples, 0);
}

#[test]
fn status_is_reported_active_from_play_until_stop_or_end() {
    let mut s = PlaybackStatus::new();
    assert!(!get_playback_state(&s));
    s.reset_for_play();
    assert!(get_playback_state(&s));
    s.track_known(metadata());
    assert!(get_playback_state(&s));
    s.stream_started(Some(44_100));
    assert!(get_playback_state(&s));
    s.frames_played(441);
    s.request_seek(1_000_000);
    s.take_seek();
    s.seek_landed(44_000);
    assert!(get_playback_state(&s));
    s.ended();
    assert!(!get_playback_state(&s));
    s.reset_for_play();
    s.stream_started(Some(44_100));
    s.stopped();
    assert!(!get_playback_state(&s));
}

#[test]
fn status_pause_holds_the_report_outside_a_transition() {
    let mut s = PlaybackStatus::new();
    s.reset_for_play();
    s.paused();
    assert!(get_playback_state(&s));
    s.stream_started(Some(44_100));
    s.paused();
    assert!(!get_playback_state(&s));
    s.resumed();
    assert!(get_playback_state(&s));
}
