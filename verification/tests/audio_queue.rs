//! The audio queue and what is played from it.

use vibe_emu::audio_queue::{audio_queue, Ring};
use vibe_emu::ui::audio::{fill_i16, fill_u16, Warmup};

#[test]
fn frames_leave_in_order() {
    let (producer, consumer) = audio_queue(4);
    assert_eq!(producer.capacity_frames(), 4);
    assert_eq!(consumer.capacity_frames(), 4);
    assert!(producer.is_empty() && consumer.is_empty());
    for round in 0..5i16 {
        for i in 0..3i16 {
            assert!(producer.push_stereo(10 * round + i, -i));
        }
        assert_eq!(producer.len(), 3);
        assert_eq!(consumer.len(), 3);
        for i in 0..3i16 {
            assert_eq!(consumer.pop_stereo(), Some((10 * round + i, -i)));
        }
        assert_eq!(consumer.pop_stereo(), None);
    }
}

#[test]
fn a_full_queue_drops_the_newest() {
    let (producer, consumer) = audio_queue(2);
    assert!(producer.push_stereo(1, 1));
    assert!(producer.push_stereo(2, 2));
    assert!(!producer.push_stereo(3, 3));
    assert_eq!(producer.len(), 2);
    assert_eq!(consumer.pop_stereo(), Some((1, 1)));
    assert!(producer.push_stereo(4, 4));
    assert_eq!(consumer.pop_stereo(), Some((2, 2)));
    assert_eq!(consumer.pop_stereo(), Some((4, 4)));
    assert_eq!(consumer.pop_stereo(), None);
}

#[test]
fn a_queue_holds_at_least_one_frame() {
    for capacity in [0, 1] {
        let (producer, consumer) = audio_queue(capacity);
        assert_eq!(producer.capacity_frames(), 1);
        assert!(producer.push_stereo(7, 8));
        assert!(!producer.push_stereo(9, 9));
        assert_eq!(consumer.pop_stereo(), Some((7, 8)));
    }
}

#[test]
fn the_ends_can_be_cloned() {
    let (producer, consumer) = audio_queue(8);
    let other = producer.clone();
    assert!(other.push_stereo(1, 2));
    assert_eq!(consumer.clone().pop_stereo(), Some((1, 2)));
    assert!(consumer.is_empty());
}

#[test]
fn signed_samples_and_silence() {
    let mut ring = Ring::new(4);
    assert!(ring.push_stereo(100, -100));
    assert!(ring.push_stereo(200, -200));
    let mut data = [7i16; 9];
    fill_i16(&mut data, 3, &mut ring);
    assert_eq!(data, [100, -100, 7, 200, -200, 7, 0, 0, 7]);
    assert_eq!(ring.len(), 0);

    assert!(ring.push_stereo(5, 6));
    assert!(ring.push_stereo(7, 8));
    let mut mono = [1i16; 1];
    fill_i16(&mut mono, 1, &mut ring);
    assert_eq!(mono, [5]);
    assert_eq!(ring.pop_stereo(), Some((7, 8)));
}

#[test]
fn unsigned_samples_are_offset() {
    let mut ring = Ring::new(4);
    assert!(ring.push_stereo(-32768, 32767));
    let mut data = [9u16; 4];
    fill_u16(&mut data, 2, &mut ring);
    assert_eq!(data, [0, 65535, 32768, 32768]);
}

#[test]
fn warmup_looks_every_1024_instructions() {
    assert!(Warmup::start(90, 90, 0).is_none());
    let mut warmup = Warmup::start(0, 90, 1_000).expect("a warmup");
    assert_eq!(warmup.deadline, 200_001_000);
    for round in 0..3 {
        for step in 0..1023 {
            assert!(!warmup.stepped(), "round {round}, step {step}");
        }
        assert!(warmup.stepped());
    }
    assert!(!warmup.stops(89, 200_000_999));
    assert!(warmup.stops(90, 0));
    assert!(warmup.stops(0, 200_001_000));
}

#[test]
fn the_length_is_what_went_in_minus_what_came_out() {
    let (producer, consumer) = audio_queue(3);
    let mut went_in = Vec::new();
    let mut came_out = Vec::new();
    // More often in than out, around the ring several times.
    for i in 0..40i16 {
        if producer.push_stereo(i, -i) {
            went_in.push((i, -i));
        }
        if i % 3 != 0 {
            came_out.extend(consumer.pop_stereo());
        }
        assert_eq!(producer.len(), went_in.len() - came_out.len());
        assert_eq!(consumer.len(), producer.len());
        assert!(producer.len() <= producer.capacity_frames());
        assert_eq!(producer.is_empty(), producer.len() == 0);
        assert_eq!(consumer.is_empty(), producer.is_empty());
    }
    assert!(went_in.len() < 40);
    while let Some(frame) = consumer.pop_stereo() {
        came_out.push(frame);
    }
    assert_eq!(came_out, went_in);
}

#[test]
fn the_last_frame_may_be_short_of_channels() {
    let mut ring = Ring::new(4);
    assert!(ring.push_stereo(1, 2));
    assert!(ring.push_stereo(3, 4));
    assert!(ring.push_stereo(5, 6));
    let mut data = [9i16; 5];
    fill_i16(&mut data, 3, &mut ring);
    assert_eq!(data, [1, 2, 9, 3, 4]);
    assert_eq!(ring.len(), 1);
    let mut data = [9u16; 3];
    fill_u16(&mut data, 4, &mut ring);
    assert_eq!(data, [32773, 32774, 9]);
    assert_eq!(ring.len(), 0);
}
