use audio_core::analyzer::{
    analysis_channels, analyze_audio_file, analyze_audio_file_head, packet_time, share_of,
    window_size, AnalysisSegment, AudioAnalysis, DecodedTrack, TrackAnalyzer, ANALYSIS_VERSION,
};

fn segment(envelope: Vec<u32>, ratio: u32) -> AnalysisSegment {
    let mut s = AnalysisSegment::new();
    for level in envelope {
        let vocal = (level as u64 * ratio as u64 / 1_000_000) as u32;
        s.envelope.push(level);
        s.low_envelope.push(level / 2);
        s.vocal_ratio.push(share_of(vocal, level));
    }
    s
}

fn click_track(every: usize, frames: usize, floor: u32) -> Vec<u32> {
    let mut env = vec![floor; frames];
    let mut i = 0;
    while i < frames {
        env[i] = 500_000;
        i += every;
    }
    env
}

fn track(duration: i64, head: Vec<u32>, tail: Vec<u32>, total: Option<i64>) -> DecodedTrack {
    DecodedTrack {
        sample_rate: Some(44_100),
        total,
        duration,
        head: segment(head, 500_000),
        tail: segment(tail, 500_000),
        chroma: [0; 12],
        loudness: Some(-14_000_000),
    }
}

#[test]
fn analyzer_window_is_a_minute_by_default() {
    assert_eq!(TrackAnalyzer::new(None, true).max_analyze_time, 60_000_000);
}

#[test]
fn analyzer_window_is_held_between_five_seconds_and_five_minutes() {
    assert_eq!(TrackAnalyzer::new(Some(1_000_000), true).max_analyze_time, 5_000_000);
    assert_eq!(TrackAnalyzer::new(Some(-1), true).max_analyze_time, 5_000_000);
    assert_eq!(TrackAnalyzer::new(Some(5_000_000), false).max_analyze_time, 5_000_000);
    assert_eq!(TrackAnalyzer::new(Some(120_000_000), false).max_analyze_time, 120_000_000);
    assert_eq!(TrackAnalyzer::new(Some(300_000_001), false).max_analyze_time, 300_000_000);
    assert_eq!(TrackAnalyzer::new(Some(i64::MAX), false).max_analyze_time, 300_000_000);
}

#[test]
fn analyzer_starts_empty() {
    let a = TrackAnalyzer::new(None, true);
    assert!(a.include_tail);
    assert!(a.head.envelope.is_empty() && a.tail.envelope.is_empty());
    assert_eq!(a.chroma, [0u32; 12]);
    assert_eq!(a.duration, 0);
    assert_eq!(a.sample_rate, 44_100);
    assert_eq!(a.loudness, None);
    assert!(a.check_limits());
}

#[test]
fn analyzer_window_size_is_20_ms_of_samples() {
    assert_eq!(window_size(44_100), 882);
    assert_eq!(window_size(48_000), 960);
    assert_eq!(window_size(50), 1);
    assert_eq!(window_size(49), 0);
    assert_eq!(window_size(0), 0);
    assert_eq!(window_size(u32::MAX), 85_899_345);
}

#[test]
fn analyzer_keeps_30_seconds_for_the_key_at_most() {
    let mut a = TrackAnalyzer::new(None, true);
    assert_eq!(a.key_max_samples(), 1_323_000);
    a.sample_rate = 48_000;
    a.max_analyze_time = 5_000_000;
    assert_eq!(a.key_max_samples(), 240_000);
    assert!(a.wants_pcm(true, 239_999));
    assert!(!a.wants_pcm(true, 240_000));
    assert!(!a.wants_pcm(false, 0));
}

#[test]
fn analyzer_window_is_tested() {
    let mut a = TrackAnalyzer::new(None, true);
    assert!(a.check_window());
    a.max_analyze_time = 4_999_999;
    assert!(!a.check_window());
    a.max_analyze_time = 300_000_001;
    assert!(!a.check_window());
}

#[test]
fn analyzer_analyses_eight_channels_at_most() {
    assert_eq!(analysis_channels(0), 0);
    assert_eq!(analysis_channels(2), 2);
    assert_eq!(analysis_channels(8), 8);
    assert_eq!(analysis_channels(9), 8);
}

#[test]
fn analyzer_packet_time_is_stamped_or_counted() {
    assert_eq!(packet_time(Some(1_234), 999, 44_100), 1_234);
    assert_eq!(packet_time(None, 44_100, 44_100), 1_000_000);
    assert_eq!(packet_time(None, 66_150, 44_100), 1_500_000);
    assert_eq!(packet_time(None, 1, 3), 333_333);
    assert_eq!(packet_time(None, 5, 0), 0);
    assert_eq!(packet_time(None, u64::MAX, 1), 0x100_0000_0000);
}

#[test]
fn analyzer_head_ends_after_the_window() {
    let mut a = TrackAnalyzer::new(Some(10_000_000), true);
    assert!(a.on_packet(9_999_999, true));
    assert_eq!(a.duration, 9_999_999);
    assert!(a.on_packet(10_000_000, true));
    assert!(!a.on_packet(10_000_001, true));
    assert_eq!(a.duration, 10_000_001);
    assert!(a.on_packet(170_000_000, false));
    assert_eq!(a.duration, 170_000_000);
}

#[test]
fn analyzer_reads_the_tail_of_long_tracks_only() {
    let a = TrackAnalyzer::new(Some(60_000_000), true);
    assert_eq!(a.tail_seek_target(Some(180_000_000)), Some(120_000_000));
    assert_eq!(a.tail_seek_target(Some(120_000_001)), Some(60_000_001));
    assert_eq!(a.tail_seek_target(Some(120_000_000)), None);
    assert_eq!(a.tail_seek_target(None), None);
    let head_only = TrackAnalyzer::new(Some(60_000_000), false);
    assert_eq!(head_only.tail_seek_target(Some(180_000_000)), None);
}

#[test]
fn analyzer_needs_a_sample_rate_of_50_hertz() {
    let mut t = track(1_000_000, vec![9_000; 50], vec![], None);
    t.sample_rate = Some(49);
    assert!(analyze_audio_file(t, None).is_none());
    let mut ok = track(1_000_000, vec![9_000; 50], vec![], None);
    ok.sample_rate = Some(50);
    assert!(analyze_audio_file(ok, None).is_some());
    let mut unstated = track(1_000_000, vec![9_000; 50], vec![], None);
    unstated.sample_rate = None;
    assert!(analyze_audio_file_head(unstated, None).is_some());
}

#[test]
fn analyzer_leaves_itself_alone_when_it_cannot_analyse() {
    let mut a = TrackAnalyzer::new(Some(7_000_000), true);
    let mut t = track(1_000_000, vec![9_000; 50], vec![], None);
    t.sample_rate = Some(10);
    assert!(a.analyze(t).is_none());
    assert_eq!(a.sample_rate, 44_100);
    assert_eq!(a.duration, 0);
    assert!(a.head.envelope.is_empty());
}

#[test]
fn analysis_of_clicks_at_120_bpm() {
    // Thirty seconds of clicks, one every half second, over a quiet floor.
    let a: AudioAnalysis =
        analyze_audio_file(track(30_000_000, click_track(25, 1500, 0), vec![], None), None)
            .unwrap();
    assert_eq!(a.duration, 30_000_000);
    assert_eq!(a.beat_period, Some(500_000));
    assert_eq!(a.bpm_confidence, Some(800_000));
    assert_eq!(a.first_beat_pos, Some(0));
    assert_eq!(a.fade_in_pos, 0);
    assert_eq!(a.fade_out_pos, 29_500_000);
    assert_eq!(a.version, ANALYSIS_VERSION);
    assert_eq!(a.version, 13);
    assert_eq!(a.analyze_window, 60_000_000);
    assert_eq!(a.loudness, Some(-14_000_000));
    assert_eq!(a.key_root, None);
    assert_eq!(a.camelot_key, None);
    assert_eq!(a.energy_profile.len(), 300);
}

#[test]
fn analysis_of_a_long_track_with_its_tail() {
    // Three minutes; the first and the last minute were read.
    let head = vec![100_000u32; 3000];
    let tail = vec![100_000u32; 3000];
    let a = analyze_audio_file(track(180_000_000, head, tail, Some(180_000_000)), None).unwrap();
    assert_eq!(a.fade_in_pos, 0);
    assert_eq!(a.fade_out_pos, 180_000_000);
    assert!(a.fade_out_pos > 150_000_000);
    // The outro ends where the last frame of sound starts; the mean square
    // of ten seconds of it is the square of the level.
    assert_eq!(a.outro_energy_level, Some(10_000_000_000));
    assert_eq!(a.vocal_in_pos, Some(0));
    assert_eq!(a.vocal_out_pos, Some(179_980_000));
    assert_eq!(a.vocal_last_in_pos, Some(174_980_000));
    // No tempo: the cut-out is forty seconds after the vocals, at most the
    // fade-out.
    assert_eq!(a.beat_period, None);
    assert_eq!(a.cut_out_pos, Some(180_000_000));
    assert_eq!(a.cut_in_pos, Some(0));
    assert_eq!(a.mix_center_pos, 180_000_000);
    assert_eq!(a.mix_start_pos, 170_000_000);
    assert_eq!(a.mix_end_pos, 180_000_000);
    assert_eq!(a.energy_profile.len(), 1800);
    assert_eq!(a.energy_profile[0], 100_000);
    assert_eq!(a.energy_profile[599], 100_000);
    assert_eq!(a.energy_profile[600], 0);
    assert_eq!(a.energy_profile[1199], 0);
    assert_eq!(a.energy_profile[1200], 100_000);
    assert_eq!(a.energy_profile[1799], 100_000);
}

#[test]
fn analysis_ignores_a_tail_that_was_not_asked_for() {
    let head = vec![100_000u32; 3000];
    let tail = vec![100_000u32; 3000];
    // Two minutes exactly are not longer than two windows.
    let a = analyze_audio_file(track(120_000_000, head, tail, Some(120_000_000)), None).unwrap();
    assert_eq!(a.outro_energy_level, None);
    assert_eq!(a.fade_out_pos, 59_980_000);
    assert_eq!(a.energy_profile[1199], 0);
}

#[test]
fn analysis_of_the_head_alone_reports_no_end() {
    let head = vec![100_000u32; 3000];
    let tail = vec![100_000u32; 3000];
    let decoded = track(180_000_000, head, tail, Some(180_000_000));
    let a = analyze_audio_file_head(decoded, Some(120_000_000)).unwrap();
    assert_eq!(a.analyze_window, 120_000_000);
    assert_eq!(a.fade_out_pos, 180_000_000);
    assert_eq!(a.cut_out_pos, None);
    assert_eq!(a.vocal_out_pos, None);
    assert_eq!(a.vocal_last_in_pos, None);
    assert_eq!(a.outro_energy_level, None);
    assert_eq!(a.vocal_in_pos, Some(0));
    // The mix window is centred on the cut-out all the same: where the
    // sound of the head ends.
    assert_eq!(a.mix_center_pos, 59_980_000);
}

#[test]
fn analysis_of_ten_silent_seconds() {
    let decoded = track(10_000_000, vec![0; 500], vec![], Some(10_000_000));
    let a = analyze_audio_file(decoded, None).unwrap();
    assert_eq!(a.fade_in_pos, 0);
    assert_eq!(a.fade_out_pos, 10_000_000);
    assert_eq!(a.beat_period, None);
    assert_eq!(a.bpm_confidence, None);
    assert_eq!(a.first_beat_pos, None);
    assert_eq!(a.key_root, None);
    assert_eq!(a.key_mode, None);
    assert_eq!(a.key_confidence, None);
    assert_eq!(a.camelot_key, None);
    assert_eq!(a.drop_pos, None);
    assert_eq!(a.vocal_in_pos, None);
    assert_eq!(a.energy_profile, vec![0u32; 100]);
}

#[test]
fn analysis_carries_the_camelot_code_of_its_key() {
    let mut t = track(10_000_000, vec![100_000; 500], vec![], None);
    t.chroma[9] = 1_000_000;
    t.chroma[0] = 800_000;
    t.chroma[4] = 900_000;
    let a = analyze_audio_file(t, None).unwrap();
    assert_eq!(a.key_root, Some(9));
    assert_eq!(a.key_mode, Some(1));
    assert_eq!(a.key_confidence, Some(800_000));
    assert_eq!(a.camelot_key, Some("12A".to_string()));
}

#[test]
fn analysis_fades_are_ordered_when_the_segments_fit() {
    for (duration, head, tail) in [
        (10_000_000i64, vec![0u32, 9_000, 0, 9_000, 0], vec![]),
        (10_000_000, vec![0u32; 5], vec![]),
        (200_000_000, vec![9_000u32; 3000], vec![0u32; 3000]),
        (200_000_000, vec![9_000u32; 3000], vec![0, 0, 9_000, 0]),
    ] {
        let a = analyze_audio_file(track(duration, head, tail, Some(duration)), None).unwrap();
        assert!(0 <= a.fade_in_pos);
        assert!(a.fade_in_pos <= a.fade_out_pos);
        assert!(a.fade_out_pos <= a.duration);
    }
}

#[test]
fn analysis_mix_window_lies_in_the_track() {
    for duration in [0i64, 1, 5_000_000, 20_000_000, 29_999_999, 30_000_000, 200_000_000] {
        let frames = (duration / 20_000) as usize;
        let decoded = track(duration, click_track(25, frames, 0), vec![], None);
        let a = analyze_audio_file(decoded, None).unwrap();
        assert!(0 <= a.mix_start_pos);
        assert!(a.mix_start_pos <= a.mix_center_pos);
        assert!(a.mix_center_pos <= a.mix_end_pos);
        assert!(a.mix_end_pos <= a.duration);
        assert!(a.mix_end_pos - a.mix_start_pos <= 30_000_000);
        if a.mix_start_pos > 0 && a.mix_end_pos < a.duration {
            assert!(a.mix_end_pos - a.mix_start_pos >= 15_000_000);
        }
    }
}

#[test]
fn analysis_energy_profile_has_a_slot_for_each_tenth_of_a_second_begun() {
    let cases = [(1i64, 1usize), (100_000, 1), (100_001, 2), (999_999, 10), (1_000_000, 10)];
    for (duration, slots) in cases {
        let a = analyze_audio_file(track(duration, vec![], vec![], None), None).unwrap();
        assert_eq!(a.energy_profile.len(), slots);
    }
    // A track of no duration has no slot, whatever was decoded of it.
    let a = analyze_audio_file(track(0, vec![], vec![], None), None).unwrap();
    assert_eq!(a.energy_profile.len(), 0);
    let b = analyze_audio_file(track(0, vec![9_000; 20], vec![], None), None).unwrap();
    assert!(b.energy_profile.is_empty());
}

#[test]
fn analysis_limits_are_tested() {
    let a = analyze_audio_file(track(10_000_000, vec![9_000; 500], vec![], None), None).unwrap();
    assert!(a.check_limits());
    let decoded = track(10_000_000, vec![9_000; 500], vec![], None);
    let mut far = analyze_audio_file(decoded, None).unwrap();
    far.duration = -1;
    assert!(!far.check_limits());
    far.duration = 10_000_000;
    far.beat_period = Some(0);
    assert!(!far.check_limits());
    far.beat_period = Some(500_000);
    far.cut_out_pos = Some(i64::MAX);
    assert!(!far.check_limits());
    let t = track(-5, vec![], vec![], None);
    assert!(!t.check_limits());
    assert!(track(5, vec![], vec![], None).check_limits());
}
