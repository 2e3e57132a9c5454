use audio_core::analyzer::AudioAnalysis;
use audio_core::transition::{
    bpm_compatible, generate_bass_swap_automation, label_of, long_mix_analyzers, strategy,
    suggest_long_mix, suggest_transition, transition_analyzers, AutomationPoint, MixStrategy,
};

const PERIOD_128: i64 = 468_750;

fn analysis(duration: i64, beat_period: Option<i64>, camelot: Option<&str>) -> AudioAnalysis {
    AudioAnalysis {
        duration,
        beat_period,
        bpm_confidence: beat_period.map(|_| 800_000),
        fade_in_pos: 0,
        fade_out_pos: duration,
        first_beat_pos: beat_period.map(|_| 0),
        loudness: None,
        drop_pos: None,
        version: 13,
        analyze_window: 60_000_000,
        cut_in_pos: Some(0),
        cut_out_pos: None,
        mix_center_pos: duration,
        mix_start_pos: 0,
        mix_end_pos: duration,
        energy_profile: Vec::new(),
        vocal_in_pos: None,
        vocal_out_pos: None,
        vocal_last_in_pos: None,
        outro_energy_level: None,
        key_root: None,
        key_mode: None,
        key_confidence: None,
        camelot_key: camelot.map(|c| c.to_string()),
    }
}

#[test]
fn strategies_are_the_six_of_the_table() {
    let expected = [
        ("Harmonic Deep Blend", "Eq Swap (Bass/Mid)", 32, true, true),
        ("Long Filter Blend", "Bass Swap / LPF", 32, true, false),
        ("Standard Blend", "Eq Mixing", 16, true, true),
        ("Filter Blend", "Bass Cut Out", 16, true, false),
        ("Short Blend", "Wash Out / Echo", 8, false, false),
        ("Quick Blend", "Quick Fade", 4, true, false),
    ];
    for (k, (name, filter, bars, req_bpm, req_key)) in expected.iter().enumerate() {
        let s: MixStrategy = strategy(k);
        assert_eq!(s.name, *name);
        assert_eq!(s.filter, *filter);
        assert_eq!(s.bars, *bars);
        assert_eq!(s.req_bpm, *req_bpm);
        assert_eq!(s.req_key, *req_key);
    }
}

#[test]
fn strategy_label_names_the_bars() {
    assert_eq!(label_of(&strategy(0)), "Harmonic Deep Blend (32 Bars)");
    assert_eq!(label_of(&strategy(5)), "Quick Blend (4 Bars)");
    assert_eq!(label_of(&MixStrategy::new("X", "Y", 0, false, false)), "X (0 Bars)");
    assert_eq!(
        label_of(&MixStrategy::new("X", "Y", u32::MAX, false, false)),
        "X (4294967295 Bars)"
    );
}

#[test]
fn tempos_within_six_hundredths_are_compatible() {
    assert!(bpm_compatible(PERIOD_128, PERIOD_128));
    // 120 against 128 beats per minute differ by a sixteenth of 128.
    assert!(!bpm_compatible(PERIOD_128, 500_000));
    // 122 against 128: 6 / 128 is less than 0.06.
    assert!(bpm_compatible(PERIOD_128, 491_803));
    // |b - a| / b = 0.06 exactly is not compatible.
    assert!(!bpm_compatible(470_000, 500_000));
    assert!(bpm_compatible(470_001, 500_000));
    assert!(!bpm_compatible(530_000, 500_000));
    assert!(bpm_compatible(529_999, 500_000));
}

#[test]
fn transition_of_two_tracks_at_128_bpm_in_8a() {
    let mut cur = analysis(240_000_000, Some(PERIOD_128), Some("8A"));
    cur.cut_out_pos = Some(200_000_000);
    cur.mix_center_pos = 170_000_000;
    let mut next = analysis(240_000_000, Some(PERIOD_128), Some("8A"));
    next.vocal_in_pos = Some(61_000_000);
    let p = suggest_transition(&cur, &next);
    assert_eq!(p.mix_type, "Harmonic Deep Blend (32 Bars)");
    assert_eq!(p.filter_strategy, "Eq Swap (Bass/Mid)");
    assert_eq!(p.duration, 60_000_000);
    assert_eq!(p.current_track_mix_out, 140_000_000);
    assert_eq!(p.next_track_mix_in, 0);
    assert_eq!(p.compatibility_score, 900_000);
    assert!(p.key_compatible);
    assert!(p.bpm_compatible);
}

#[test]
fn transition_without_compatible_keys_skips_the_harmonic_blends() {
    let mut cur = analysis(240_000_000, Some(PERIOD_128), Some("8A"));
    cur.cut_out_pos = Some(200_000_000);
    cur.mix_center_pos = 170_000_000;
    let mut next = analysis(240_000_000, Some(PERIOD_128), Some("3B"));
    next.vocal_in_pos = Some(61_000_000);
    let p = suggest_transition(&cur, &next);
    assert_eq!(p.mix_type, "Long Filter Blend (32 Bars)");
    assert_eq!(p.filter_strategy, "Bass Swap / LPF");
    assert!(!p.key_compatible);
    assert!(p.bpm_compatible);
}

#[test]
fn transition_into_a_short_intro_takes_a_shorter_blend() {
    let mut cur = analysis(240_000_000, Some(PERIOD_128), Some("8A"));
    cur.cut_out_pos = Some(200_000_000);
    cur.mix_center_pos = 200_000_000;
    let mut next = analysis(240_000_000, Some(PERIOD_128), Some("9A"));
    // An intro of exactly 16 bars.
    next.first_beat_pos = Some(1_000_000);
    next.vocal_in_pos = Some(31_000_000);
    let p = suggest_transition(&cur, &next);
    assert_eq!(p.mix_type, "Standard Blend (16 Bars)");
    assert_eq!(p.duration, 30_000_000);
    assert_eq!(p.current_track_mix_out, 170_000_000);
    assert_eq!(p.next_track_mix_in, 1_000_000);
    next.vocal_in_pos = Some(30_999_999);
    let q = suggest_transition(&cur, &next);
    assert_eq!(q.mix_type, "Short Blend (8 Bars)");
    assert_eq!(q.duration, 15_000_000);
}

#[test]
fn transition_without_compatible_tempos_is_a_short_blend_or_an_echo() {
    let mut cur = analysis(240_000_000, Some(PERIOD_128), Some("8A"));
    cur.cut_out_pos = Some(200_000_000);
    cur.mix_center_pos = 200_000_000;
    let next = analysis(240_000_000, Some(600_000), Some("8A"));
    // The intro counts as 30 seconds, which holds eight bars but no more.
    let p = suggest_transition(&cur, &next);
    assert_eq!(p.mix_type, "Short Blend (8 Bars)");
    assert_eq!(p.filter_strategy, "Wash Out / Echo");
    assert!(!p.bpm_compatible);
    assert!(p.key_compatible);
    let mut crowded = analysis(240_000_000, Some(600_000), Some("8A"));
    crowded.vocal_in_pos = Some(10_000_000);
    let q = suggest_transition(&cur, &crowded);
    assert_eq!(q.mix_type, "Echo Out");
    assert_eq!(q.filter_strategy, "Echo Freeze");
    assert_eq!(q.duration, 7_500_000);
    assert_eq!(q.current_track_mix_out, 200_000_000);
    assert_eq!(q.compatibility_score, 500_000);
}

#[test]
fn transition_falls_back_on_a_bass_swap_when_there_is_room() {
    let mut cur = analysis(240_000_000, Some(PERIOD_128), None);
    cur.cut_out_pos = Some(200_000_000);
    cur.mix_center_pos = 200_000_000;
    let mut next = analysis(240_000_000, Some(PERIOD_128), None);
    next.vocal_in_pos = Some(5_000_000);
    let p = suggest_transition(&cur, &next);
    assert_eq!(p.mix_type, "Aggressive Bass Swap");
    assert_eq!(p.filter_strategy, "Bass Swap");
    assert_eq!(p.duration, 30_000_000);
    assert_eq!(p.current_track_mix_out, 170_000_000);
    assert_eq!(p.compatibility_score, 700_000);
    assert!(!p.key_compatible);
    // With exactly 16 bars left after the cut-out there is no room.
    cur.duration = 230_000_000;
    let q = suggest_transition(&cur, &next);
    assert_eq!(q.mix_type, "Echo Out");
}

#[test]
fn transition_does_not_start_more_than_30_seconds_before_the_mix_centre() {
    let mut cur = analysis(240_000_000, Some(PERIOD_128), Some("8A"));
    cur.cut_out_pos = Some(200_000_000);
    cur.mix_center_pos = 200_000_001;
    let mut next = analysis(240_000_000, Some(PERIOD_128), Some("8A"));
    next.vocal_in_pos = Some(61_000_000);
    // 32 bars would start at 140 s and 16 bars at 170 s, both more than 30 s
    // before the centre; eight bars start at 185 s.
    let p = suggest_transition(&cur, &next);
    assert_eq!(p.mix_type, "Short Blend (8 Bars)");
    assert_eq!(p.current_track_mix_out, 185_000_000);
}

#[test]
fn transition_takes_128_bpm_for_tracks_without_a_tempo() {
    let cur = analysis(240_000_000, None, None);
    let next = analysis(240_000_000, None, None);
    // The current track is left at its fade-out, which is its end: a blend
    // of sixteen bars just fits the default intro of 30 seconds.
    let p = suggest_transition(&cur, &next);
    assert!(p.bpm_compatible);
    assert!(!p.key_compatible);
    assert_eq!(p.mix_type, "Filter Blend (16 Bars)");
    assert_eq!(p.filter_strategy, "Bass Cut Out");
    assert_eq!(p.duration, 30_000_000);
    assert_eq!(p.current_track_mix_out, 210_000_000);
    assert_eq!(p.next_track_mix_in, 0);
}

#[test]
fn bass_swap_curves_mirror_each_other() {
    let (out, into) = generate_bass_swap_automation(60_000_000);
    assert_eq!(
        out,
        vec![
            AutomationPoint { time_offset: 0, volume: 1_000_000, low_cut: 0, high_cut: 0 },
            AutomationPoint {
                time_offset: 30_000_000,
                volume: 900_000,
                low_cut: 800_000,
                high_cut: 0
            },
            AutomationPoint { time_offset: 60_000_000, volume: 0, low_cut: 1_000_000, high_cut: 0 },
        ]
    );
    assert_eq!(
        into,
        vec![
            AutomationPoint { time_offset: 0, volume: 0, low_cut: 1_000_000, high_cut: 0 },
            AutomationPoint {
                time_offset: 30_000_000,
                volume: 900_000,
                low_cut: 800_000,
                high_cut: 0
            },
            AutomationPoint { time_offset: 60_000_000, volume: 1_000_000, low_cut: 0, high_cut: 0 },
        ]
    );
}

#[test]
fn bass_swap_curves_run_forward() {
    for dur in [0i64, 1, 7, 60_000_000, i64::MAX] {
        let (out, into) = generate_bass_swap_automation(dur);
        for curve in [out, into] {
            assert_eq!(curve.len(), 3);
            assert!(curve[0].time_offset <= curve[1].time_offset);
            assert!(curve[1].time_offset <= curve[2].time_offset);
            assert_eq!(curve[1].time_offset, dur / 2);
        }
    }
}

#[test]
fn long_mix_of_two_tracks_at_128_bpm() {
    let cur = analysis(240_000_000, Some(PERIOD_128), None);
    let mut next = analysis(240_000_000, Some(PERIOD_128), None);
    next.drop_pos = Some(90_000_000);
    next.vocal_in_pos = Some(20_000_000);
    let m = suggest_long_mix(&cur, &next);
    assert_eq!(m.duration, 60_000_000);
    assert_eq!(m.start_time_current, 175_000_000);
    assert_eq!(m.start_time_next, 30_000_000);
    assert_eq!(m.playback_rate, 1_000_000);
    assert_eq!(m.pitch_shift_semitones, 0);
    assert_eq!(m.strategy, "Long Bass Swap");
    assert_eq!(m.automation_current.len(), 3);
    assert_eq!(m.automation_current[2].time_offset, 60_000_000);
    assert_eq!(m.automation_next[0].volume, 0);
}

#[test]
fn long_mix_brings_the_next_track_to_the_tempo_of_the_current() {
    // 120 into 100 beats per minute: the next track is played at 1.2.
    let cur = analysis(300_000_000, Some(500_000), None);
    let mut next = analysis(300_000_000, Some(600_000), None);
    next.vocal_in_pos = Some(100_000_000);
    let m = suggest_long_mix(&cur, &next);
    assert_eq!(m.duration, 64_000_000);
    assert_eq!(m.playback_rate, 1_200_000);
    assert_eq!(m.start_time_current, 231_000_000);
    // 64 s of mix take 53.33 s of the next track.
    assert_eq!(m.start_time_next, 46_666_667);
}

#[test]
fn long_mix_starts_are_not_before_the_tracks() {
    let cur = analysis(30_000_000, Some(PERIOD_128), None);
    let next = analysis(30_000_000, Some(PERIOD_128), None);
    let m = suggest_long_mix(&cur, &next);
    assert_eq!(m.start_time_current, 0);
    // Without drop and vocals the next track is entered so as to arrive at
    // its 32nd bar.
    assert_eq!(m.start_time_next, 0);
    let fast = analysis(30_000_000, Some(300_000), None);
    let slow = analysis(30_000_000, Some(1_000_000), None);
    let n = suggest_long_mix(&fast, &slow);
    assert_eq!(n.duration, 38_400_000);
    assert_eq!(n.playback_rate, 3_333_333);
    assert_eq!(n.start_time_next, 128_000_000 - 11_520_000);
}

#[test]
fn transition_analyses_two_minutes_of_the_next_track() {
    let (cur, next) = transition_analyzers();
    assert_eq!(cur.max_analyze_time, 60_000_000);
    assert!(cur.include_tail);
    assert_eq!(next.max_analyze_time, 120_000_000);
    assert!(!next.include_tail);
    assert!(cur.check_window() && next.check_window());
}

#[test]
fn long_mix_analyses_three_minutes_of_the_next_track() {
    let (cur, next) = long_mix_analyzers();
    assert_eq!(cur.max_analyze_time, 60_000_000);
    assert!(cur.include_tail);
    assert_eq!(next.max_analyze_time, 180_000_000);
    assert!(!next.include_tail);
}
