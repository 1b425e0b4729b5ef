//! Rolling sample buffers fed by the capture callback, and the choice of the
//! stream configuration a device is opened with.

use crate::Sides;
use ringbuffer::AllocRingBuffer;
use ringbuffer::RingBufferExt;
use ringbuffer::RingBufferWrite;
use vstd::arithmetic::power2::is_pow2;
use vstd::prelude::*;

verus! {

/// Samples that a clip keeps of each channel.
pub const CLIP_CAP: usize = 4096;

/// Channels that the capture callback's frames are read as.
pub const CAPTURE_CHANNELS: usize = 2;

/// The heap-backed ring buffer of the `ringbuffer` crate, opaque to the verifier.
#[verifier::external_type_specification]
#[verifier::external_body]
#[verifier::reject_recursive_types(T)]
pub struct ExAllocRingBuffer<T>(AllocRingBuffer<T>);

/// The items a ring buffer holds, oldest first.
pub uninterp spec fn ring_samples(ring: AllocRingBuffer<u32>) -> Seq<u32>;

/// The capacity a ring buffer was made with.
pub uninterp spec fn ring_capacity(ring: AllocRingBuffer<u32>) -> nat;

/// `n` samples of silence.
pub open spec fn silence(n: nat) -> Seq<u32> {
    Seq::new(n, |i: int| 0u32)
}

/// What a full buffer that `held` some samples holds once `samples` have
/// arrived: the most recent of them all, oldest first, as many as it held
/// before.
pub open spec fn rolled(held: Seq<u32>, samples: Seq<u32>) -> Seq<u32> {
    (held + samples).skip(samples.len() as int)
}

/// The samples of one channel in interleaved frames of `num_channels` samples
/// each. Samples after the last whole frame belong to no frame, and a channel
/// that the frames do not carry has no samples.
pub open spec fn channel_samples(data: Seq<u32>, num_channels: nat, channel: nat) -> Seq<u32> {
    if channel < num_channels {
        Seq::new(
            (data.len() / num_channels) as nat,
            |frame: int| data[frame * num_channels + channel],
        )
    } else {
        Seq::empty()
    }
}

/// A buffer holds as many samples after an arrival as before it.
pub proof fn lemma_rolled_keeps_length(held: Seq<u32>, samples: Seq<u32>)
    ensures
        rolled(held, samples).len() == held.len(),
{
}

/// Samples that arrive in two parts leave the buffer as if they had arrived
/// at once.
pub proof fn lemma_rolled_in_parts(held: Seq<u32>, first: Seq<u32>, second: Seq<u32>)
    ensures
        rolled(rolled(held, first), second) == rolled(held, first + second),
{
    assert(rolled(rolled(held, first), second) =~= rolled(held, first + second));
}

/// Once at least as many samples have arrived as the buffer holds, it holds
/// the most recent of them in the order of their arrival, and nothing older.
pub proof fn lemma_rolled_holds_latest(held: Seq<u32>, samples: Seq<u32>)
    requires
        samples.len() >= held.len(),
    ensures
        rolled(held, samples) == samples.skip(samples.len() - held.len()),
{
    assert(rolled(held, samples) =~= samples.skip(samples.len() - held.len()));
}

/// Frames of two samples split into the samples at the even places, for the
/// left channel, and those at the odd places, for the right.
pub proof fn lemma_stereo_channels(data: Seq<u32>)
    ensures
        channel_samples(data, 2, 0).len() == data.len() / 2,
        channel_samples(data, 2, 1).len() == data.len() / 2,
        forall|i: int|
            0 <= i < data.len() / 2 ==> #[trigger] channel_samples(data, 2, 0)[i] == data[2 * i],
        forall|i: int|
            0 <= i < data.len() / 2 ==> #[trigger] channel_samples(data, 2, 1)[i] == data[2 * i
                + 1],
{
}

/// A sample after the last whole frame of two reaches neither channel.
pub proof fn lemma_trailing_sample_is_dropped(data: Seq<u32>, extra: u32)
    requires
        data.len() % 2 == 0,
    ensures
        channel_samples(data.push(extra), 2, 0) == channel_samples(data, 2, 0),
        channel_samples(data.push(extra), 2, 1) == channel_samples(data, 2, 1),
{
    assert(channel_samples(data.push(extra), 2, 0) =~= channel_samples(data, 2, 0));
    assert(channel_samples(data.push(extra), 2, 1) =~= channel_samples(data, 2, 1));
}

/// `AllocRingBuffer::with_capacity`: an empty buffer of the given capacity.
/// The crate panics on a capacity that is zero or no power of two, and the
/// allocation behind it on one of more than `isize::MAX` bytes.
#[verifier::external_body]
fn ring_with_capacity(capacity: usize) -> (ring: AllocRingBuffer<u32>)
    requires
        is_pow2(capacity as int),
        capacity * 4 <= isize::MAX,
    ensures
        ring_samples(ring) == Seq::<u32>::empty(),
        ring_capacity(ring) == capacity,
{
    AllocRingBuffer::with_capacity(capacity)
}

/// `RingBufferExt::fill_default`: drops what the buffer holds and fills it to
/// its capacity with zeros.
#[verifier::external_body]
fn ring_fill_default(ring: &mut AllocRingBuffer<u32>)
    ensures
        ring_capacity(*final(ring)) == ring_capacity(*old(ring)),
        ring_samples(*final(ring)) == silence(ring_capacity(*old(ring))),
{
    ring.fill_default()
}

/// `RingBufferWrite::push`: appends `value`; a buffer that is full first drops
/// its oldest item. The capacity stays, and the call does not unwind. The
/// crate's cursors are `usize` counters that only grow; their overflow,
/// `usize::MAX` pushes away, is left out of this contract.
#[verifier::external_body]
fn ring_push(ring: &mut AllocRingBuffer<u32>, value: u32)
    ensures
        ring_capacity(*final(ring)) == ring_capacity(*old(ring)),
        ring_samples(*final(ring)) == if ring_samples(*old(ring)).len() == ring_capacity(
            *old(ring),
        ) {
            ring_samples(*old(ring)).skip(1).push(value)
        } else {
            ring_samples(*old(ring)).push(value)
        },
    no_unwind
{
    ring.push(value)
}

/// `RingBufferExt::to_vec`: a copy of the items, oldest first.
#[verifier::external_body]
fn ring_to_vec(ring: &AllocRingBuffer<u32>) -> (items: Vec<u32>)
    ensures
        items@ == ring_samples(*ring),
{
    ring.to_vec()
}

/// `Clone::clone` of the ring buffer: a buffer of the same capacity that holds
/// the same items in the same order.
#[verifier::external_body]
fn ring_clone(ring: &AllocRingBuffer<u32>) -> (copy: AllocRingBuffer<u32>)
    ensures
        ring_samples(copy) == ring_samples(*ring),
        ring_capacity(copy) == ring_capacity(*ring),
{
    ring.clone()
}

/// The most recent samples of one channel. The buffer is full from the start,
/// of silence, so it holds as many samples as its capacity at all times.
pub struct SampleRing {
    ring: AllocRingBuffer<u32>,
}

impl View for SampleRing {
    type V = Seq<u32>;

    /// The samples held, oldest first.
    closed spec fn view(&self) -> Seq<u32> {
        ring_samples(self.ring)
    }
}

impl SampleRing {
    #[verifier::type_invariant]
    spec fn full(self) -> bool {
        &&& ring_samples(self.ring).len() == ring_capacity(self.ring)
        &&& ring_capacity(self.ring) > 0
    }

    /// A buffer of `capacity` samples of silence.
    pub fn with_capacity(capacity: usize) -> (buffer: SampleRing)
        requires
            is_pow2(capacity as int),
            capacity * 4 <= isize::MAX,
        ensures
            buffer@ == silence(capacity as nat),
    {
        proof {
            reveal(is_pow2);
        }
        let mut ring = ring_with_capacity(capacity);
        ring_fill_default(&mut ring);
        SampleRing { ring }
    }

    /// A buffer of `capacity` samples of silence, where one of that capacity
    /// can be made: the capacity is a power of two, and so many samples fit
    /// into an allocation.
    pub fn try_with_capacity(capacity: usize) -> (made: Option<SampleRing>)
        ensures
            made is Some <==> is_pow2(capacity as int) && capacity * 4 <= isize::MAX,
            made matches Some(buffer) ==> buffer@ == silence(capacity as nat),
    {
        if capacity <= isize::MAX as usize / 4 && is_power_of_two(capacity) {
            Some(SampleRing::with_capacity(capacity))
        } else {
            None
        }
    }

    /// Appends one sample; the oldest one leaves.
    pub fn push(&mut self, sample: u32)
        ensures
            final(self)@ == old(self)@.skip(1).push(sample),
            final(self)@.len() == old(self)@.len(),
    {
        proof {
            use_type_invariant(&*self);
        }
        ring_push(&mut self.ring, sample);
    }

    /// Appends `samples` in order; as many of the oldest leave. What stays are
    /// the most recent samples, as many as the capacity, in the order in which
    /// they arrived.
    pub fn append(&mut self, samples: &[u32])
        ensures
            final(self)@ == rolled(old(self)@, samples@),
            final(self)@.len() == old(self)@.len(),
            samples@.len() >= old(self)@.len() ==> final(self)@ == samples@.skip(
                samples@.len() - old(self)@.len(),
            ),
    {
        let mut done: usize = 0;
        while done < samples.len()
            invariant
                done <= samples.len(),
                self@ == rolled(old(self)@, samples@.take(done as int)),
                self@.len() == old(self)@.len(),
            decreases samples.len() - done,
        {
            let ghost before = self@;
            self.push(samples[done]);
            assert(before.skip(1).push(samples@[done as int]) =~= rolled(
                old(self)@,
                samples@.take(done + 1),
            ));
            done += 1;
        }
        proof {
            if samples@.len() >= old(self)@.len() {
                assert(rolled(old(self)@, samples@) =~= samples@.skip(
                    samples@.len() - old(self)@.len(),
                ));
            }
        }
    }

    /// A copy of the samples held, oldest first. The buffer is left as it is.
    pub fn snapshot(&self) -> (samples: Vec<u32>)
        ensures
            samples@ == self@,
    {
        ring_to_vec(&self.ring)
    }
}

/// Whether `n` is a power of two.
fn is_power_of_two(n: usize) -> (yes: bool)
    ensures
        yes == is_pow2(n as int),
{
    if n == 0 {
        proof {
            reveal(is_pow2);
        }
        return false;
    }
    let mut rest: usize = n;
    while rest % 2 == 0
        invariant
            rest > 0,
            is_pow2(n as int) == is_pow2(rest as int),
        decreases rest,
    {
        proof {
            reveal(is_pow2);
        }
        rest = rest / 2;
    }
    proof {
        reveal(is_pow2);
    }
    rest == 1
}

impl Clone for SampleRing {
    fn clone(&self) -> (copy: SampleRing)
        ensures
            copy@ == self@,
    {
        proof {
            use_type_invariant(self);
        }
        SampleRing { ring: ring_clone(&self.ring) }
    }
}

/// The samples of one channel of interleaved `data`.
pub fn deinterleave(data: &[u32], num_channels: usize, channel: usize) -> (samples: Vec<u32>)
    ensures
        samples@ == channel_samples(data@, num_channels as nat, channel as nat),
{
    let mut samples: Vec<u32> = Vec::new();
    if channel >= num_channels {
        return samples;
    }
    let frames: usize = data.len() / num_channels;
    let mut frame: usize = 0;
    while frame < frames
        invariant
            channel < num_channels,
            frames == data@.len() / (num_channels as nat),
            frame <= frames,
            samples@ == Seq::new(frame as nat, |f: int| data@[f * num_channels + channel]),
        decreases frames - frame,
    {
        proof {
            lemma_sample_in_frames(data@.len(), num_channels as nat, channel as nat, frame as nat);
            assert(frame * num_channels + channel < data.len());
        }
        let index: usize = frame * num_channels + channel;
        samples.push(data[index]);
        frame += 1;
    }
    samples
}

/// Every sample of a whole frame lies within the data.
proof fn lemma_sample_in_frames(len: nat, num_channels: nat, channel: nat, frame: nat)
    requires
        channel < num_channels,
        frame < len / num_channels,
    ensures
        frame * num_channels + channel < len,
{
    let frames = len / num_channels;
    assert(frames * num_channels <= len) by {
        vstd::arithmetic::div_mod::lemma_fundamental_div_mod(len as int, num_channels as int);
        vstd::arithmetic::div_mod::lemma_mod_pos_bound(len as int, num_channels as int);
        assert(num_channels * frames == frames * num_channels) by (nonlinear_arith);
    }
    assert((frame + 1) * num_channels <= frames * num_channels) by (nonlinear_arith)
        requires
            frame + 1 <= frames,
    ;
    assert((frame + 1) * num_channels == frame * num_channels + num_channels) by (nonlinear_arith);
}

/// The recent sound of a source: its sample rate, zero while no source is
/// selected, and the latest samples of its two channels.
pub struct Clip {
    pub sample_rate: u32,
    pub left: SampleRing,
    pub right: SampleRing,
}

impl Default for Clip {
    /// Silence on both channels, and no sample rate.
    fn default() -> (clip: Clip)
        ensures
            clip.sample_rate == 0,
            clip.left@ == silence(CLIP_CAP as nat),
            clip.right@ == silence(CLIP_CAP as nat),
    {
        proof {
            lemma_clip_cap_is_pow2();
        }
        Clip {
            sample_rate: 0,
            left: SampleRing::with_capacity(CLIP_CAP),
            right: SampleRing::with_capacity(CLIP_CAP),
        }
    }
}

proof fn lemma_clip_cap_is_pow2()
    ensures
        is_pow2(CLIP_CAP as int),
{
    reveal_with_fuel(is_pow2, 13);
}

impl Clone for Clip {
    fn clone(&self) -> (copy: Clip)
        ensures
            copy.sample_rate == self.sample_rate,
            copy.left@ == self.left@,
            copy.right@ == self.right@,
    {
        Clip { sample_rate: self.sample_rate, left: self.left.clone(), right: self.right.clone() }
    }
}

impl Clip {
    /// The samples of both channels, oldest first.
    pub fn snapshot(&self) -> (raw: Sides<Vec<u32>>)
        ensures
            raw.left@ == self.left@,
            raw.right@ == self.right@,
    {
        Sides { left: self.left.snapshot(), right: self.right.snapshot() }
    }
}

/// Takes the frames that the capture callback delivers into the clip: the
/// first sample of each frame goes to the left channel, the second to the
/// right.
pub fn on_data(clip: &mut Clip, data: &[u32])
    ensures
        final(clip).sample_rate == old(clip).sample_rate,
        final(clip).left@ == rolled(
            old(clip).left@,
            channel_samples(data@, CAPTURE_CHANNELS as nat, 0),
        ),
        final(clip).right@ == rolled(
            old(clip).right@,
            channel_samples(data@, CAPTURE_CHANNELS as nat, 1),
        ),
        final(clip).left@.len() == old(clip).left@.len(),
        final(clip).right@.len() == old(clip).right@.len(),
{
    let left = deinterleave(data, CAPTURE_CHANNELS, 0);
    clip.left.append(left.as_slice());
    let right = deinterleave(data, CAPTURE_CHANNELS, 1);
    clip.right.append(right.as_slice());
}

/// Most channels that a stream configuration may have to be usable for capture.
pub const MAX_INPUT_CHANNELS: u16 = 2;

/// The sample rate that capture asks a device for.
pub const TARGET_SAMPLE_RATE: u32 = 44100;

/// A range of input stream configurations that a device supports: a channel
/// count and the sample rates, both bounds included, that it can run at.
#[derive(Clone, Copy, Debug, PartialEq, Eq, Structural)]
pub struct ConfigRange {
    pub channels: u16,
    pub min_sample_rate: u32,
    pub max_sample_rate: u32,
}

impl ConfigRange {
    /// Capture reads frames of at most two channels.
    pub open spec fn usable(self) -> bool {
        self.channels <= MAX_INPUT_CHANNELS
    }

    pub open spec fn offers(self, sample_rate: u32) -> bool {
        self.min_sample_rate <= sample_rate <= self.max_sample_rate
    }

    pub fn is_usable(&self) -> (yes: bool)
        ensures
            yes == self.usable(),
    {
        self.channels <= MAX_INPUT_CHANNELS
    }

    pub fn supports(&self, sample_rate: u32) -> (yes: bool)
        ensures
            yes == self.offers(sample_rate),
    {
        self.min_sample_rate <= sample_rate && sample_rate <= self.max_sample_rate
    }
}

/// Some configuration among `configs` is usable.
pub open spec fn has_usable(configs: Seq<ConfigRange>) -> bool {
    exists|i: int| 0 <= i < configs.len() && (#[trigger] configs[i]).usable()
}

/// `choice` is the configuration that capture prefers among `configs`: a
/// usable one with the most channels, and the first of those.
pub open spec fn preferred(configs: Seq<ConfigRange>, choice: int) -> bool {
    &&& 0 <= choice < configs.len()
    &&& configs[choice].usable()
    &&& forall|j: int|
        0 <= j < configs.len() && (#[trigger] configs[j]).usable() ==> configs[j].channels
            <= configs[choice].channels
    &&& forall|j: int|
        0 <= j < choice && (#[trigger] configs[j]).usable() ==> configs[j].channels
            < configs[choice].channels
}

/// At most one configuration is the preferred one.
pub proof fn lemma_preferred_is_unique(configs: Seq<ConfigRange>, a: int, b: int)
    requires
        preferred(configs, a),
        preferred(configs, b),
    ensures
        a == b,
{
}

/// A scan keeps a device if one of the input configurations it supports is
/// usable.
pub fn is_input_device(configs: &Vec<ConfigRange>) -> (keep: bool)
    ensures
        keep == has_usable(configs@),
{
    let mut i: usize = 0;
    while i < configs.len()
        invariant
            i <= configs.len(),
            forall|j: int| 0 <= j < i ==> !(#[trigger] configs@[j]).usable(),
        decreases configs.len() - i,
    {
        if configs[i].is_usable() {
            return true;
        }
        i += 1;
    }
    false
}

/// The configuration to open a device with, by its place in `configs`; none
/// if no configuration is usable.
pub fn preferred_config(configs: &Vec<ConfigRange>) -> (choice: Option<usize>)
    ensures
        match choice {
            Some(i) => preferred(configs@, i as int),
            None => !has_usable(configs@),
        },
{
    let mut best: Option<usize> = None;
    let mut i: usize = 0;
    while i < configs.len()
        invariant
            i <= configs.len(),
            match best {
                Some(b) => b < i && preferred(configs@.take(i as int), b as int),
                None => forall|j: int| 0 <= j < i ==> !(#[trigger] configs@[j]).usable(),
            },
        decreases configs.len() - i,
    {
        if configs[i].is_usable() {
            match best {
                Some(b) => {
                    if configs[b].channels < configs[i].channels {
                        best = Some(i);
                    }
                },
                None => {
                    best = Some(i);
                },
            }
        }
        i += 1;
    }
    assert(configs@.take(i as int) == configs@);
    best
}

/// The stream that capture opens on a device.
#[derive(Clone, Copy, Debug, PartialEq, Eq, Structural)]
pub struct StreamPlan {
    /// The place of the chosen configuration among those of the device.
    pub config: usize,
    pub channels: u16,
    pub sample_rate: u32,
}

/// Why no stream can be opened on a device.
#[derive(Clone, Copy, Debug, PartialEq, Eq, Structural)]
pub enum SelectError {
    /// Every input configuration of the device has more than two channels, or
    /// it has none.
    NoUsableConfig,
    /// The preferred configuration cannot run at the target sample rate.
    SampleRateUnsupported,
}

/// Plans the capture stream of a device that supports `configs`: its preferred
/// configuration, run at the target sample rate.
pub fn plan_stream(configs: &Vec<ConfigRange>) -> (plan: Result<StreamPlan, SelectError>)
    ensures
        match plan {
            Ok(stream) => {
                &&& preferred(configs@, stream.config as int)
                &&& configs@[stream.config as int].offers(TARGET_SAMPLE_RATE)
                &&& stream.channels == configs@[stream.config as int].channels
                &&& stream.sample_rate == TARGET_SAMPLE_RATE
            },
            Err(SelectError::NoUsableConfig) => !has_usable(configs@),
            Err(SelectError::SampleRateUnsupported) => exists|i: int|
                #[trigger] preferred(configs@, i) && !configs@[i].offers(TARGET_SAMPLE_RATE),
        },
{
    match preferred_config(configs) {
        None => Err(SelectError::NoUsableConfig),
        Some(i) => {
            let config = configs[i];
            if config.supports(TARGET_SAMPLE_RATE) {
                Ok(StreamPlan { config: i, channels: config.channels, sample_rate: TARGET_SAMPLE_RATE })
            } else {
                Err(SelectError::SampleRateUnsupported)
            }
        },
    }
}

} // verus!
