use godot_vlc::audio::{AudioFormat, AudioPipeline, PlayReport};

fn interleave(frames: &[(u32, u32)]) -> Vec<u32> {
    let mut v = Vec::new();
    for (l, r) in frames {
        v.push(*l);
        v.push(*r);
    }
    v
}

#[test]
fn capacity_is_five_seconds_of_mix_rate() {
    assert!(AudioPipeline::new(0).is_none());
    let mut a = AudioPipeline::new(2).unwrap();
    assert_eq!(a.mix_rate(), 2);
    let frames: Vec<(u32, u32)> = (0..12).map(|i| (i, i + 100)).collect();
    let r = a.play(&interleave(&frames));
    assert_eq!(r.accepted, 10);
    assert_eq!(r.dropped, 2);
    assert_eq!(a.queued(), 10);
}

#[test]
fn full_queue_keeps_oldest_and_drops_newest() {
    let mut a = AudioPipeline::new(1).unwrap();
    let first: Vec<(u32, u32)> = (0..5).map(|i| (i, i)).collect();
    let r = a.play(&interleave(&first));
    assert_eq!(r, PlayReport { accepted: 5, dropped: 0, start_consumer: true });
    let r = a.play(&interleave(&[(9, 9), (8, 8)]));
    assert_eq!(r, PlayReport { accepted: 0, dropped: 2, start_consumer: false });
    assert_eq!(a.queued(), 5);
    assert_eq!(a.mix(10), first);
}

#[test]
fn trailing_unpaired_sample_is_ignored() {
    let mut a = AudioPipeline::new(1).unwrap();
    let r = a.play(&[1, 2, 3]);
    assert_eq!(r.accepted, 1);
    assert_eq!(a.mix(4), vec![(1, 2)]);
}

#[test]
fn flush_empties_and_stops_consumer() {
    let mut a = AudioPipeline::new(10).unwrap();
    a.play(&interleave(&[(1, 1), (2, 2), (3, 3)]));
    assert!(a.is_pulling());
    a.flush();
    assert_eq!(a.queued(), 0);
    assert!(!a.is_pulling());
    a.resume();
    assert!(a.mix(8).is_empty());
    let r = a.play(&interleave(&[(7, 7), (8, 8)]));
    assert!(r.start_consumer);
    assert_eq!(a.mix(8), vec![(7, 7), (8, 8)]);
}

#[test]
fn mix_reports_short_count() {
    let mut a = AudioPipeline::new(10).unwrap();
    a.play(&interleave(&[(1, 1), (2, 2), (3, 3)]));
    assert_eq!(a.mix(2), vec![(1, 1), (2, 2)]);
    assert_eq!(a.mix(5), vec![(3, 3)]);
    assert!(a.mix(5).is_empty());
}

#[test]
fn pause_holds_frames_without_discarding() {
    let mut a = AudioPipeline::new(10).unwrap();
    a.play(&interleave(&[(1, 1), (2, 2)]));
    a.pause();
    assert!(a.is_paused());
    assert!(a.mix(4).is_empty());
    assert_eq!(a.queued(), 2);
    a.resume();
    assert_eq!(a.mix(4), vec![(1, 1), (2, 2)]);
}

#[test]
fn setup_reports_layout_and_resets_queue() {
    let mut a = AudioPipeline::new(48000).unwrap();
    a.play(&interleave(&[(1, 1)]));
    assert_eq!(a.setup(), AudioFormat { rate: 48000, channels: 2 });
    assert_eq!(a.queued(), 0);
}
