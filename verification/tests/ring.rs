use audio_core::callback::{make_frame, write_silence, CallbackReport, PlayerCallback};
use audio_core::ring::{drain_poll, queue_frames, sample_ring, SampleProducer};
use audio_core::session::{SessionEvent, StreamContext};
use audio_core::status::PlaybackStatus;
use audio_core::supervisor::RING_CAPACITY;

fn ring_seems_empty(producer: &mut SampleProducer) -> bool {
    match drain_poll(producer, false) {
        SessionEvent::DrainPolled { stop: false, ring_empty } => ring_empty,
        other => panic!("not a drain poll: {:?}", other),
    }
}

#[test]
fn drain_poll_carries_the_stop_flag() {
    let (mut producer, _consumer) = sample_ring();
    assert_eq!(
        drain_poll(&mut producer, true),
        SessionEvent::DrainPolled { stop: true, ring_empty: true }
    );
    assert_eq!(
        drain_poll(&mut producer, false),
        SessionEvent::DrainPolled { stop: false, ring_empty: true }
    );
}

#[test]
fn frame_is_made_of_two_samples_or_silence() {
    assert_eq!(make_frame(Some(5), Some(6)), (5, 6));
    assert_eq!(make_frame(Some(5), None), (5, 0));
    assert_eq!(make_frame(None, Some(6)), (0, 6));
    assert_eq!(make_frame(None, None), (0, 0));
}

#[test]
fn silence_is_the_bits_of_a_float_zero() {
    let mut frames = [(7u32, 8u32); 4];
    write_silence(&mut frames);
    for (left, right) in frames {
        assert_eq!(f32::from_bits(left), 0.0);
        assert_eq!(f32::from_bits(right), 0.0);
    }
}

#[test]
fn ring_takes_samples_in_order_until_it_is_full() {
    let (mut producer, consumer) = sample_ring();
    assert!(ring_seems_empty(&mut producer));
    let frames = [(1u32, 2u32), (3, 4), (5, 6)];
    assert_eq!(queue_frames(&mut producer, &frames, 0), 6);
    assert!(!ring_seems_empty(&mut producer));
    let mut callback = PlayerCallback::new(consumer);
    let mut context = StreamContext::new();
    let mut out = [(9u32, 9u32); 2];
    let report = callback.on_audio_ready(true, &mut context, &mut out);
    assert_eq!(report, CallbackReport { frames_played: 2, discarded: 0 });
    assert_eq!(out, [(1, 2), (3, 4)]);
    let mut rest = [(9u32, 9u32); 2];
    let report = callback.on_audio_ready(true, &mut context, &mut rest);
    assert_eq!(rest, [(5, 6), (0, 0)]);
    // The frame of silence that stands for the dry ring buffer is not played.
    assert_eq!(report, CallbackReport { frames_played: 1, discarded: 0 });
    assert!(ring_seems_empty(&mut producer));
}

#[test]
fn ring_goes_on_where_it_was_full() {
    let (mut producer, consumer) = sample_ring();
    let frames = vec![(1u32, 2u32); RING_CAPACITY / 2 + 1];
    let next = queue_frames(&mut producer, &frames, 0);
    assert_eq!(next, RING_CAPACITY);
    assert_eq!(queue_frames(&mut producer, &frames, next), next);
    let mut callback = PlayerCallback::new(consumer);
    let mut context = StreamContext::new();
    let mut out = [(0u32, 0u32); 1];
    callback.on_audio_ready(true, &mut context, &mut out);
    assert_eq!(out, [(1, 2)]);
    assert_eq!(queue_frames(&mut producer, &frames, next), frames.len() * 2);
}

#[test]
fn ring_can_be_entered_in_the_middle_of_a_frame() {
    let (mut producer, consumer) = sample_ring();
    let frames = [(1u32, 2u32), (3, 4)];
    assert_eq!(queue_frames(&mut producer, &frames, 1), 4);
    assert_eq!(queue_frames(&mut producer, &frames, 4), 4);
    let mut callback = PlayerCallback::new(consumer);
    let mut context = StreamContext::new();
    let mut out = [(9u32, 9u32); 2];
    callback.on_audio_ready(true, &mut context, &mut out);
    assert_eq!(out, [(2, 3), (4, 0)]);
}

#[test]
fn callback_writes_silence_while_playback_is_held() {
    let (mut producer, consumer) = sample_ring();
    queue_frames(&mut producer, &[(1, 2), (3, 4)], 0);
    let mut callback = PlayerCallback::new(consumer);
    let mut context = StreamContext { flush_requested: true };
    let mut status = PlaybackStatus::new();
    status.frames_played(1_000);
    let mut out = [(9u32, 9u32); 8];
    let report = callback.on_audio_ready(false, &mut context, &mut out);
    status.frames_played(report.frames_played);
    assert_eq!(out, [(0, 0); 8]);
    assert_eq!(report, CallbackReport { frames_played: 0, discarded: 0 });
    assert_eq!(status.position_samples, 1_000);
    // Neither the flush nor the ring buffer is touched.
    assert!(context.flush_requested);
    context.flush_requested = false;
    let mut resumed = [(9u32, 9u32); 2];
    let report = callback.on_audio_ready(true, &mut context, &mut resumed);
    status.frames_played(report.frames_played);
    assert_eq!(resumed, [(1, 2), (3, 4)]);
    assert_eq!(status.position_samples, 1_002);
}

#[test]
fn callback_flush_drops_what_the_ring_holds() {
    let (mut producer, consumer) = sample_ring();
    queue_frames(&mut producer, &[(1, 2), (3, 4), (5, 6)], 0);
    let mut callback = PlayerCallback::new(consumer);
    let mut context = StreamContext { flush_requested: true };
    let mut out = [(9u32, 9u32); 2];
    let report = callback.on_audio_ready(true, &mut context, &mut out);
    assert_eq!(report, CallbackReport { frames_played: 0, discarded: 6 });
    assert_eq!(out, [(0, 0), (0, 0)]);
    assert!(!context.flush_requested);
    assert!(ring_seems_empty(&mut producer));
    queue_frames(&mut producer, &[(7, 8)], 0);
    let report = callback.on_audio_ready(true, &mut context, &mut out);
    assert_eq!(report, CallbackReport { frames_played: 1, discarded: 0 });
    assert_eq!(out, [(7, 8), (0, 0)]);
}

#[test]
fn callback_plays_nothing_from_a_dry_ring() {
    let (_producer, consumer) = sample_ring();
    let mut callback = PlayerCallback::new(consumer);
    let mut context = StreamContext::new();
    let mut status = PlaybackStatus::new();
    status.frames_played(500);
    let mut out = [(9u32, 9u32); 3];
    let report = callback.on_audio_ready(true, &mut context, &mut out);
    status.frames_played(report.frames_played);
    assert_eq!(report, CallbackReport { frames_played: 0, discarded: 0 });
    assert_eq!(out, [(0, 0); 3]);
    assert_eq!(status.position_samples, 500);
    let mut none: [(u32, u32); 0] = [];
    let report = callback.on_audio_ready(true, &mut context, &mut none);
    assert_eq!(report, CallbackReport { frames_played: 0, discarded: 0 });
}

#[test]
fn callback_passes_float_samples_through_unchanged() {
    let (mut producer, consumer) = sample_ring();
    let samples = [0.25f32, -0.5, 1.0, f32::MIN_POSITIVE];
    let frames = [
        (samples[0].to_bits(), samples[1].to_bits()),
        (samples[2].to_bits(), samples[3].to_bits()),
    ];
    queue_frames(&mut producer, &frames, 0);
    let mut callback = PlayerCallback::new(consumer);
    let mut context = StreamContext::new();
    let mut out = [(0u32, 0u32); 2];
    callback.on_audio_ready(true, &mut context, &mut out);
    assert_eq!(f32::from_bits(out[0].0), 0.25);
    assert_eq!(f32::from_bits(out[0].1), -0.5);
    assert_eq!(f32::from_bits(out[1].0), 1.0);
    assert_eq!(f32::from_bits(out[1].1), f32::MIN_POSITIVE);
}

#[test]
fn ring_keeps_the_order_while_both_ends_work_in_turn() {
    let (mut producer, consumer) = sample_ring();
    let frames: Vec<(u32, u32)> = (0..5_000u32).map(|i| (2 * i + 1, 2 * i + 2)).collect();
    let total = frames.len() * 2;
    let mut callback = PlayerCallback::new(consumer);
    let mut context = StreamContext::new();
    let mut seen: Vec<u32> = Vec::new();
    let mut next = 0;
    while seen.len() < total {
        // The producer puts in a few hundred samples, then the hardware asks
        // for 64 frames.
        let until = (next + 300).min(total);
        let part: Vec<(u32, u32)> = frames[..(until + 1) / 2].to_vec();
        let stop = until.min(part.len() * 2);
        while next < stop {
            let before = next;
            next = queue_frames(&mut producer, &part, next);
            assert!(next > before);
        }
        let mut out = [(0u32, 0u32); 64];
        callback.on_audio_ready(true, &mut context, &mut out);
        for (left, right) in out {
            for sample in [left, right] {
                if sample != 0 {
                    seen.push(sample);
                }
            }
        }
    }
    for (i, sample) in seen.iter().enumerate() {
        assert_eq!(*sample, i as u32 + 1);
    }
}

#[test]
fn ring_takes_as_many_samples_as_it_has_free_places() {
    let (mut producer, consumer) = sample_ring();
    // A new ring buffer has room for all its capacity, and for no more.
    let frames = vec![(7u32, 8u32); RING_CAPACITY / 2];
    assert_eq!(queue_frames(&mut producer, &frames, 0), RING_CAPACITY);
    assert_eq!(queue_frames(&mut producer, &[(1, 2)], 0), 0);
    // Each sample that is taken out frees one place.
    let mut callback = PlayerCallback::new(consumer);
    let mut context = StreamContext::new();
    let mut out = [(0u32, 0u32); 2];
    callback.on_audio_ready(true, &mut context, &mut out);
    assert_eq!(queue_frames(&mut producer, &[(1, 2), (3, 4), (5, 6)], 0), 4);
    assert_eq!(queue_frames(&mut producer, &[(1, 2), (3, 4), (5, 6)], 4), 4);
}

#[test]
fn ring_with_nothing_to_queue_is_left_alone() {
    let (mut producer, _consumer) = sample_ring();
    assert_eq!(queue_frames(&mut producer, &[], 0), 0);
    assert_eq!(queue_frames(&mut producer, &[(1, 2)], 2), 2);
    assert!(ring_seems_empty(&mut producer));
}

#[test]
fn callback_counts_a_frame_with_one_sample() {
    let (mut producer, consumer) = sample_ring();
    assert_eq!(queue_frames(&mut producer, &[(1, 2), (3, 4)], 0), 4);
    let mut callback = PlayerCallback::new(consumer);
    let mut context = StreamContext::new();
    let mut first = [(9u32, 9u32); 1];
    callback.on_audio_ready(true, &mut context, &mut first);
    let mut out = [(9u32, 9u32); 4];
    assert_eq!(queue_frames(&mut producer, &[(5, 6)], 0), 2);
    let report = callback.on_audio_ready(true, &mut context, &mut out);
    assert_eq!(out, [(3, 4), (5, 6), (0, 0), (0, 0)]);
    assert_eq!(report.frames_played, 2);
    let (mut half_producer, half_consumer) = sample_ring();
    assert_eq!(queue_frames(&mut half_producer, &[(1, 2), (3, 4)], 1), 4);
    let mut half = PlayerCallback::new(half_consumer);
    let report = half.on_audio_ready(true, &mut context, &mut out);
    assert_eq!(out, [(2, 3), (4, 0), (0, 0), (0, 0)]);
    assert_eq!(report.frames_played, 2);
}

#[test]
fn callback_counts_frames_of_zero_samples_from_the_ring() {
    let (mut producer, consumer) = sample_ring();
    queue_frames(&mut producer, &[(0, 0), (0, 0)], 0);
    let mut callback = PlayerCallback::new(consumer);
    let mut context = StreamContext::new();
    let mut out = [(9u32, 9u32); 3];
    let report = callback.on_audio_ready(true, &mut context, &mut out);
    assert_eq!(out, [(0, 0); 3]);
    assert_eq!(report.frames_played, 2);
}

#[test]
fn drain_poll_tells_a_full_ring_from_an_empty_one() {
    let (mut producer, consumer) = sample_ring();
    let frames = vec![(7u32, 8u32); RING_CAPACITY / 2];
    assert_eq!(queue_frames(&mut producer, &frames, 0), RING_CAPACITY);
    // Every place is filled: the ring buffer is as far from empty as it gets.
    assert_eq!(
        drain_poll(&mut producer, false),
        SessionEvent::DrainPolled { stop: false, ring_empty: false }
    );
    let mut callback = PlayerCallback::new(consumer);
    let mut context = StreamContext { flush_requested: true };
    let mut out = [(9u32, 9u32); 1];
    let report = callback.on_audio_ready(true, &mut context, &mut out);
    assert_eq!(report, CallbackReport { frames_played: 0, discarded: RING_CAPACITY });
    // Every place is free again, and the producer sees it when it looks.
    assert_eq!(
        drain_poll(&mut producer, true),
        SessionEvent::DrainPolled { stop: true, ring_empty: true }
    );
    assert_eq!(queue_frames(&mut producer, &frames, 0), RING_CAPACITY);
    assert!(!ring_seems_empty(&mut producer));
}
