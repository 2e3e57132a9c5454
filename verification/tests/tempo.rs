use audio_core::tempo::{comb_energy, detect_bpm, flux_vec, score_lag, Tempo};

fn clicks(every: usize, frames: usize) -> Vec<u32> {
    let mut env = vec![0u32; frames];
    let mut i = 0;
    while i < frames {
        env[i] = 500_000;
        i += every;
    }
    env
}

#[test]
fn tempo_flux_keeps_rises_only() {
    assert_eq!(flux_vec(&[1, 5, 3, 3, 10]), vec![0, 4, 0, 0, 7]);
    assert_eq!(flux_vec(&[7]), vec![0]);
    assert_eq!(flux_vec(&[]), Vec::<u32>::new());
}

#[test]
fn tempo_score_is_the_plain_correlation() {
    assert_eq!(score_lag(&[1, 2, 3, 4], 1), 1 * 2 + 2 * 3 + 3 * 4);
    assert_eq!(score_lag(&[1, 2, 3, 4], 3), 4);
    assert_eq!(score_lag(&[1, 2, 3, 4], 4), 0);
    assert_eq!(score_lag(&[u32::MAX, u32::MAX], 1), (u32::MAX as u128) * (u32::MAX as u128));
}

#[test]
fn tempo_comb_adds_every_lag_th_rise() {
    assert_eq!(comb_energy(&[1, 2, 3, 4, 5, 6, 7], 3, 1), 2 + 5);
    assert_eq!(comb_energy(&[1, 2, 3, 4, 5, 6, 7], 3, 0), 1 + 4 + 7);
    assert_eq!(comb_energy(&[1, 2, 3], 5, 7), 0);
    assert_eq!(comb_energy(&[1, 2, 3], usize::MAX, 2), 3);
}

#[test]
fn tempo_of_clicks_at_120_bpm() {
    // A click every half second for thirty seconds.
    let env = clicks(25, 1500);
    let tempo = detect_bpm(&env).unwrap();
    assert_eq!(tempo.beat_period, 500_000);
    let bpm = 60_000_000.0 / tempo.beat_period as f64;
    assert!((bpm - 120.0).abs() <= 2.0);
    // The rise into each click is entered at the frame of the click.
    assert_eq!(tempo.first_beat, 0);
    assert!(tempo.first_beat <= 20_000);
    assert_eq!(tempo.confidence, 800_000);
}

#[test]
fn tempo_of_the_fastest_and_the_slowest_beat() {
    assert_eq!(detect_bpm(&clicks(15, 600)).unwrap().beat_period, 300_000);
    assert_eq!(detect_bpm(&clicks(54, 600)).unwrap().beat_period, 1_080_000);
}

#[test]
fn tempo_outside_the_range_is_folded_or_missed() {
    // A beat of 60 frames is too slow to be found, and no shorter lag lines
    // any two clicks up.
    assert_eq!(detect_bpm(&clicks(60, 600)), None);
    // A beat of 10 frames is found at twice its length.
    assert_eq!(detect_bpm(&clicks(10, 600)).unwrap().beat_period, 400_000);
}

#[test]
fn tempo_needs_111_frames() {
    // 111 frames give the 110 rises from one frame to the next that a tempo
    // is read from.
    assert_eq!(detect_bpm(&clicks(25, 109)), None);
    assert_eq!(detect_bpm(&clicks(25, 110)), None);
    assert_eq!(detect_bpm(&clicks(25, 111)).unwrap().beat_period, 500_000);
    assert_eq!(detect_bpm(&[]), None);
}

#[test]
fn tempo_needs_a_score_above_the_floor() {
    assert_eq!(detect_bpm(&vec![0u32; 500]), None);
    assert_eq!(detect_bpm(&vec![700_000u32; 500]), None);
    // Rises of 5000 every 25 frames: ten pairs score 250 000 000.
    let mut faint = vec![0u32; 300];
    let mut i = 25;
    while i < 300 {
        faint[i] = 5_000;
        i += 25;
    }
    assert_eq!(detect_bpm(&faint), None);
}

#[test]
fn tempo_takes_the_last_of_equal_phases() {
    // Two equally strong click trains, three frames apart.
    let mut env = vec![0u32; 1500];
    let mut i = 25;
    while i < 1500 {
        env[i] = 500_000;
        i += 25;
    }
    let mut j = 28;
    while j < 1500 {
        env[j] = 500_000;
        j += 25;
    }
    // Both trains gather as much rise; the later phase is taken.
    let tempo = detect_bpm(&env).unwrap();
    assert_eq!(tempo.beat_period, 500_000);
    assert_eq!(tempo.first_beat, 60_000);
}

#[test]
fn tempo_phase_is_the_frame_of_the_clicks() {
    for offset in [0usize, 1, 7, 24] {
        let mut env = vec![0u32; 1500];
        let mut i = offset + 25;
        while i < 1500 {
            env[i] = 500_000;
            i += 25;
        }
        let tempo = detect_bpm(&env).unwrap();
        assert_eq!(tempo.beat_period, 500_000);
        assert_eq!(tempo.first_beat, offset as i64 * 20_000);
    }
}

#[test]
fn tempo_reported_lies_between_55_and_200_bpm() {
    for every in [15usize, 16, 20, 25, 33, 40, 54] {
        let tempo: Tempo = detect_bpm(&clicks(every, 1200)).unwrap();
        assert!(55 * tempo.beat_period < 60_000_000);
        assert!(60_000_000 <= 200 * tempo.beat_period);
        assert!(0 <= tempo.first_beat && tempo.first_beat < tempo.beat_period);
    }
}
