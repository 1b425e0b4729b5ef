use rustcertation::sound_proxy::on_data;
use rustcertation::sound_proxy::Clip;
use rustcertation::sound_proxy::SampleRing;
use rustcertation::sound_proxy::CLIP_CAP;

fn bits(samples: &[f32]) -> Vec<u32> {
    samples.iter().map(|s| s.to_bits()).collect()
}

fn floats(samples: &[u32]) -> Vec<f32> {
    samples.iter().map(|s| f32::from_bits(*s)).collect()
}

#[test]
fn ring_starts_as_silence() {
    let ring = SampleRing::with_capacity(8);
    assert_eq!(floats(&ring.snapshot()), vec![0.0f32; 8]);
}

#[test]
fn ring_of_capacity_one() {
    let mut ring = SampleRing::with_capacity(1);
    assert_eq!(ring.snapshot(), vec![0]);
    ring.append(&[7, 8, 9]);
    assert_eq!(ring.snapshot(), vec![9]);
}

#[test]
fn ring_keeps_the_latest_eight_of_ten() {
    let mut ring = SampleRing::with_capacity(8);
    for sample in 1..=10 {
        ring.append(&bits(&[sample as f32]));
    }
    assert_eq!(
        floats(&ring.snapshot()),
        vec![3.0, 4.0, 5.0, 6.0, 7.0, 8.0, 9.0, 10.0]
    );
}

#[test]
fn ring_push_drops_the_oldest() {
    let mut ring = SampleRing::with_capacity(4);
    ring.push(11);
    assert_eq!(ring.snapshot(), vec![0, 0, 0, 11]);
    ring.push(12);
    ring.push(13);
    ring.push(14);
    assert_eq!(ring.snapshot(), vec![11, 12, 13, 14]);
    ring.push(15);
    assert_eq!(ring.snapshot(), vec![12, 13, 14, 15]);
}

#[test]
fn ring_append_of_fewer_than_capacity_keeps_the_old_tail() {
    let mut ring = SampleRing::with_capacity(8);
    ring.append(&[1, 2, 3]);
    assert_eq!(ring.snapshot(), vec![0, 0, 0, 0, 0, 1, 2, 3]);
    ring.append(&[4, 5]);
    assert_eq!(ring.snapshot(), vec![0, 0, 0, 1, 2, 3, 4, 5]);
}

#[test]
fn ring_append_of_exactly_capacity_replaces_everything() {
    let mut ring = SampleRing::with_capacity(4);
    ring.append(&[9, 9, 9]);
    ring.append(&[1, 2, 3, 4]);
    assert_eq!(ring.snapshot(), vec![1, 2, 3, 4]);
}

#[test]
fn ring_append_of_more_than_capacity_keeps_the_most_recent() {
    let mut ring = SampleRing::with_capacity(4);
    ring.append(&[1, 2, 3, 4, 5, 6, 7, 8, 9]);
    assert_eq!(ring.snapshot(), vec![6, 7, 8, 9]);
}

#[test]
fn ring_append_of_nothing_changes_nothing() {
    let mut ring = SampleRing::with_capacity(4);
    ring.append(&[1, 2]);
    ring.append(&[]);
    assert_eq!(ring.snapshot(), vec![0, 0, 1, 2]);
}

#[test]
fn ring_length_is_the_capacity_after_every_append() {
    let mut ring = SampleRing::with_capacity(16);
    let mut next = 0u32;
    for burst in 0..40usize {
        let samples: Vec<u32> = (0..burst).map(|i| next + i as u32).collect();
        next += burst as u32;
        ring.append(&samples);
        assert_eq!(ring.snapshot().len(), 16);
    }
    let expected: Vec<u32> = (next - 16..next).collect();
    assert_eq!(ring.snapshot(), expected);
}

#[test]
fn ring_append_in_parts_is_append_at_once() {
    let mut parts = SampleRing::with_capacity(8);
    parts.append(&[1, 2, 3, 4, 5]);
    parts.append(&[6, 7, 8, 9, 10, 11]);
    let mut once = SampleRing::with_capacity(8);
    once.append(&[1, 2, 3, 4, 5, 6, 7, 8, 9, 10, 11]);
    assert_eq!(parts.snapshot(), once.snapshot());
    assert_eq!(once.snapshot(), vec![4, 5, 6, 7, 8, 9, 10, 11]);
}

#[test]
fn ring_snapshot_leaves_the_buffer_as_it_is() {
    let mut ring = SampleRing::with_capacity(4);
    ring.append(&[1, 2, 3]);
    let first = ring.snapshot();
    let second = ring.snapshot();
    assert_eq!(first, second);
    ring.push(4);
    assert_eq!(first, vec![0, 1, 2, 3]);
    assert_eq!(ring.snapshot(), vec![1, 2, 3, 4]);
}

#[test]
fn ring_clone_holds_the_same_samples_and_is_its_own() {
    let mut ring = SampleRing::with_capacity(4);
    ring.append(&[1, 2, 3, 4, 5]);
    let mut copy = ring.clone();
    assert_eq!(copy.snapshot(), vec![2, 3, 4, 5]);
    ring.push(6);
    assert_eq!(copy.snapshot(), vec![2, 3, 4, 5]);
    copy.push(7);
    assert_eq!(copy.snapshot(), vec![3, 4, 5, 7]);
    assert_eq!(ring.snapshot(), vec![3, 4, 5, 6]);
}

#[test]
fn clip_default_is_silent() {
    let clip = Clip::default();
    assert_eq!(clip.sample_rate, 0);
    assert_eq!(CLIP_CAP, 4096);
    assert_eq!(clip.left.snapshot(), vec![0u32; 4096]);
    assert_eq!(clip.right.snapshot(), vec![0u32; 4096]);
    let raw = clip.snapshot();
    assert_eq!(raw.left, vec![0u32; 4096]);
    assert_eq!(raw.right, vec![0u32; 4096]);
}

#[test]
fn clip_takes_left_and_right_from_frames() {
    let mut clip = Clip::default();
    clip.sample_rate = 44100;
    on_data(&mut clip, &bits(&[0.1, -0.1, 0.2, -0.2, 0.3, -0.3]));
    let raw = clip.snapshot();
    assert_eq!(raw.left.len(), 4096);
    assert_eq!(raw.right.len(), 4096);
    assert_eq!(floats(&raw.left[4093..]), vec![0.1, 0.2, 0.3]);
    assert_eq!(floats(&raw.right[4093..]), vec![-0.1, -0.2, -0.3]);
    assert_eq!(raw.left[4092], 0);
    assert_eq!(raw.right[4092], 0);
    assert_eq!(clip.sample_rate, 44100);
}

#[test]
fn clip_drops_a_sample_after_the_last_whole_frame() {
    let mut clip = Clip::default();
    on_data(&mut clip, &[1, 2, 3, 4, 5]);
    let raw = clip.snapshot();
    assert_eq!(&raw.left[4094..], &[1, 3]);
    assert_eq!(&raw.right[4094..], &[2, 4]);
    assert_eq!(raw.left[4093], 0);
}

#[test]
fn clip_keeps_the_latest_capacity_of_each_channel() {
    let mut clip = Clip::default();
    let frames = 4096 + 100;
    let mut data: Vec<u32> = Vec::new();
    for frame in 0..frames as u32 {
        data.push(frame + 1);
        data.push(1_000_000 + frame);
    }
    on_data(&mut clip, &data[..2000]);
    on_data(&mut clip, &data[2000..]);
    let raw = clip.snapshot();
    let left: Vec<u32> = (101..=4196).collect();
    let right: Vec<u32> = (1_000_100..1_004_196).collect();
    assert_eq!(raw.left, left);
    assert_eq!(raw.right, right);
}

#[test]
fn clip_clone_is_a_snapshot() {
    let mut clip = Clip::default();
    clip.sample_rate = 48000;
    on_data(&mut clip, &[1, 2]);
    let copy = clip.clone();
    on_data(&mut clip, &[3, 4]);
    assert_eq!(copy.sample_rate, 48000);
    assert_eq!(&copy.snapshot().left[4094..], &[0, 1]);
    assert_eq!(&copy.snapshot().right[4094..], &[0, 2]);
    assert_eq!(&clip.snapshot().left[4094..], &[1, 3]);
}

#[test]
fn ring_is_made_for_a_power_of_two() {
    for capacity in [1usize, 2, 4, 8, 1024, 4096] {
        let ring = SampleRing::try_with_capacity(capacity).expect("a power of two");
        assert_eq!(ring.snapshot(), vec![0u32; capacity]);
    }
}

#[test]
fn ring_is_not_made_for_another_capacity() {
    for capacity in [0usize, 3, 5, 6, 7, 10, 100, 4095, 4097] {
        assert!(SampleRing::try_with_capacity(capacity).is_none());
    }
    assert!(SampleRing::try_with_capacity(usize::MAX).is_none());
    assert!(SampleRing::try_with_capacity(1 << (usize::BITS - 1)).is_none());
    assert!(SampleRing::try_with_capacity(1 << (usize::BITS - 2)).is_none());
}
