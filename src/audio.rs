use ringbuf::traits::{Consumer, Observer, Producer};
use ringbuf::HeapRb;
use vstd::prelude::*;

verus! {

/// One stereo frame, as the bit patterns of its left and right 32-bit float
/// samples.
pub type FrameBits = (u32, u32);

/// Seconds of audio the queue holds by default, at the consumer's mix rate.
pub const DEFAULT_BUFFER_SECONDS: u32 = 5;

/// Largest queue capacity, in frames, that the pipeline allocates.
pub const MAX_QUEUE_FRAMES: usize = 0x1000_0000;

/// A bounded FIFO of frames, held in a ring buffer of the `ringbuf` crate.
#[verifier::external_body]
pub struct FrameRing {
    rb: HeapRb<FrameBits>,
}

/// The frames held by the ring, oldest first.
pub uninterp spec fn ring_frames(r: FrameRing) -> Seq<FrameBits>;

/// The number of frames the ring was created to hold.
pub uninterp spec fn ring_capacity(r: FrameRing) -> nat;

/// Relies on `HeapRb::new`: an empty ring whose storage holds exactly
/// `capacity` items. It panics on a zero capacity, which `requires` rules out,
/// and on a capacity whose storage would exceed `isize::MAX` bytes, which the
/// bound rules out.
#[verifier::external_body]
fn ring_new(capacity: usize) -> (r: FrameRing)
    requires
        0 < capacity <= MAX_QUEUE_FRAMES,
    ensures
        ring_frames(r) == Seq::<FrameBits>::empty(),
        ring_capacity(r) == capacity,
{
    FrameRing { rb: HeapRb::new(capacity) }
}

/// Relies on `Producer::try_push` of `SharedRb`: when the ring is not full
/// the item is appended after the newest one, otherwise it is handed back
/// and the ring is unchanged.
#[verifier::external_body]
fn ring_try_push(r: &mut FrameRing, f: FrameBits) -> (res: Result<(), FrameBits>)
    ensures
        ring_capacity(*final(r)) == ring_capacity(*old(r)),
        ring_frames(*old(r)).len() < ring_capacity(*old(r)) ==> res is Ok && ring_frames(*final(r))
            == ring_frames(*old(r)).push(f),
        ring_frames(*old(r)).len() >= ring_capacity(*old(r)) ==> (res matches Err(g) && g == f
            && ring_frames(*final(r)) == ring_frames(*old(r))),
{
    r.rb.try_push(f)
}

/// Relies on `Consumer::try_pop` of `SharedRb`: removes and returns the
/// oldest item, or returns `None` when the ring is empty.
#[verifier::external_body]
fn ring_try_pop(r: &mut FrameRing) -> (res: Option<FrameBits>)
    ensures
        ring_capacity(*final(r)) == ring_capacity(*old(r)),
        ring_frames(*old(r)).len() == 0 ==> res is None && ring_frames(*final(r)) == ring_frames(
            *old(r),
        ),
        ring_frames(*old(r)).len() > 0 ==> res == Some(ring_frames(*old(r))[0]) && ring_frames(
            *final(r),
        ) == ring_frames(*old(r)).drop_first(),
{
    r.rb.try_pop()
}

/// Relies on `Consumer::clear` of `SharedRb`: removes every item.
#[verifier::external_body]
fn ring_clear(r: &mut FrameRing)
    ensures
        ring_capacity(*final(r)) == ring_capacity(*old(r)),
        ring_frames(*final(r)) == Seq::<FrameBits>::empty(),
{
    r.rb.clear();
}

/// Relies on `Observer::occupied_len` of `SharedRb`: the number of items held.
#[verifier::external_body]
fn ring_len(r: &FrameRing) -> (n: usize)
    ensures
        n == ring_frames(*r).len(),
{
    r.rb.occupied_len()
}

/// The stereo frames carried by interleaved samples: left and right
/// alternate, and a trailing unpaired sample carries no frame.
pub open spec fn frames_of(samples: Seq<u32>) -> Seq<FrameBits> {
    Seq::new(samples.len() / 2, |i: int| (samples[2 * i], samples[2 * i + 1]))
}

/// Mathematical state of the audio pipeline.
pub struct AudioModel {
    /// Frames waiting for the consumer, oldest first.
    pub queue: Seq<FrameBits>,
    /// Most frames the queue holds.
    pub capacity: nat,
    /// The consumer holds back queued frames.
    pub paused: bool,
    /// The consumer has been signalled to pull.
    pub pulling: bool,
    /// The consumer's mix rate, reported to the decoder.
    pub rate: u32,
}

impl AudioModel {
    pub open spec fn wf(self) -> bool {
        0 < self.capacity && self.queue.len() <= self.capacity
    }

    /// How many of `n` offered frames fit: the newest excess is dropped.
    pub open spec fn accepted(self, n: nat) -> nat {
        let room = (self.capacity - self.queue.len()) as nat;
        if n <= room {
            n
        } else {
            room
        }
    }

    pub open spec fn after_play(self, batch: Seq<FrameBits>) -> AudioModel {
        let k = self.accepted(batch.len());
        AudioModel {
            queue: self.queue + batch.take(k as int),
            pulling: self.pulling || k > 0,
            ..self
        }
    }

    pub open spec fn after_pause(self) -> AudioModel {
        AudioModel { paused: true, ..self }
    }

    pub open spec fn after_resume(self) -> AudioModel {
        AudioModel { paused: false, ..self }
    }

    pub open spec fn after_flush(self) -> AudioModel {
        AudioModel { queue: Seq::empty(), pulling: false, ..self }
    }

    pub open spec fn after_setup(self) -> AudioModel {
        AudioModel { queue: Seq::empty(), ..self }
    }

    /// The frames a mix request for `n` frames pulls: none while paused or
    /// not signalled, otherwise the oldest ones, up to `n`.
    pub open spec fn pulled(self, n: nat) -> Seq<FrameBits> {
        if self.paused || !self.pulling {
            Seq::empty()
        } else if n <= self.queue.len() {
            self.queue.take(n as int)
        } else {
            self.queue
        }
    }

    pub open spec fn after_mix(self, n: nat) -> AudioModel {
        AudioModel { queue: self.queue.skip(self.pulled(n).len() as int), ..self }
    }
}

/// A delivered batch never displaces queued frames and never grows the
/// queue past its capacity: what was queued stays at the front, and only
/// the oldest frames of the batch that fit are appended. On a full queue the
/// whole batch is dropped and the queue is unchanged.
pub proof fn lemma_full_queue_drops_newest(m: AudioModel, batch: Seq<FrameBits>)
    requires
        m.wf(),
    ensures
        m.after_play(batch).wf(),
        m.after_play(batch).queue.take(m.queue.len() as int) == m.queue,
        m.after_play(batch).queue.skip(m.queue.len() as int) == batch.take(
            m.accepted(batch.len()) as int,
        ),
        m.queue.len() == m.capacity ==> m.accepted(batch.len()) == 0 && m.after_play(batch).queue
            == m.queue,
{
    let q = m.after_play(batch).queue;
    let k = m.accepted(batch.len());
    assert(q.take(m.queue.len() as int) =~= m.queue);
    assert(q.skip(m.queue.len() as int) =~= batch.take(k as int));
    if m.queue.len() == m.capacity {
        assert(q =~= m.queue);
    }
}

/// A flush leaves the queue empty and the consumer stopped, so that a mix
/// pulls nothing, even once resumed. After a flush, a batch and a resume, a
/// mix pulls only frames of that batch, oldest first.
pub proof fn lemma_flush_discards_stale_frames(
    m: AudioModel,
    batch: Seq<FrameBits>,
    n: nat,
)
    requires
        m.wf(),
    ensures
        m.after_flush().wf(),
        m.after_flush().queue.len() == 0,
        !m.after_flush().pulling,
        m.after_flush().pulled(n).len() == 0,
        m.after_flush().after_resume().pulled(n).len() == 0,
        m.after_flush().after_play(batch).after_resume().pulled(n) == batch.take(
            m.after_flush().after_play(batch).after_resume().pulled(n).len() as int,
        ),
{
    let r = m.after_flush().after_play(batch).after_resume();
    let k = m.after_flush().accepted(batch.len());
    assert(r.queue =~= batch.take(k as int));
    let p = r.pulled(n);
    assert(p =~= batch.take(p.len() as int));
}

/// What a delivered batch of samples did to the queue.
#[derive(Clone, Copy, Debug, PartialEq, Eq, Structural)]
pub struct PlayReport {
    /// Frames appended to the queue.
    pub accepted: usize,
    /// Frames dropped because the queue was full.
    pub dropped: usize,
    /// The consumer must be told to start pulling.
    pub start_consumer: bool,
}

/// Sample layout negotiated with the decoder: 32-bit float samples, two
/// interleaved channels, at the consumer's rate.
#[derive(Clone, Copy, Debug, PartialEq, Eq, Structural)]
pub struct AudioFormat {
    pub rate: u32,
    pub channels: u32,
}

/// Carries decoded audio from the decoder to the consumer's mixer through a
/// bounded queue. The producer never waits: frames that do not fit are
/// dropped, newest first. The consumer never waits either: a mix request
/// takes what is queued, up to what it asked for.
pub struct AudioPipeline {
    ring: FrameRing,
    paused: bool,
    pulling: bool,
    rate: u32,
}

impl View for AudioPipeline {
    type V = AudioModel;

    closed spec fn view(&self) -> AudioModel {
        AudioModel {
            queue: ring_frames(self.ring),
            capacity: ring_capacity(self.ring),
            paused: self.paused,
            pulling: self.pulling,
            rate: self.rate,
        }
    }
}

impl AudioPipeline {
    pub closed spec fn wf(&self) -> bool {
        self@.wf() && self@.capacity <= MAX_QUEUE_FRAMES
    }

    /// A pipeline for a consumer mixing at `mix_rate` frames per second,
    /// whose queue holds `DEFAULT_BUFFER_SECONDS` seconds of audio. `None`
    /// when that capacity is zero or above `MAX_QUEUE_FRAMES`.
    pub fn new(mix_rate: u32) -> (r: Option<AudioPipeline>)
        ensures
            (0 < mix_rate * DEFAULT_BUFFER_SECONDS <= MAX_QUEUE_FRAMES) <==> r is Some,
            r matches Some(p) ==> p.wf() && p@ == (AudioModel {
                queue: Seq::empty(),
                capacity: (mix_rate * DEFAULT_BUFFER_SECONDS) as nat,
                paused: false,
                pulling: false,
                rate: mix_rate,
            }),
    {
        let capacity: u64 = mix_rate as u64 * DEFAULT_BUFFER_SECONDS as u64;
        if capacity == 0 || capacity > MAX_QUEUE_FRAMES as u64 {
            return None;
        }
        let ring = ring_new(capacity as usize);
        Some(AudioPipeline { ring, paused: false, pulling: false, rate: mix_rate })
    }

    /// Answers the decoder's format setup with the consumer's layout, and
    /// drops any frames still queued.
    pub fn setup(&mut self) -> (r: AudioFormat)
        requires
            old(self).wf(),
        ensures
            final(self).wf(),
            final(self)@ == old(self)@.after_setup(),
            r == (AudioFormat { rate: old(self)@.rate, channels: 2 }),
    {
        ring_clear(&mut self.ring);
        AudioFormat { rate: self.rate, channels: 2 }
    }

    /// Queues the frames of a block of interleaved samples. Frames that do
    /// not fit are dropped, newest first, and counted in the report; the
    /// queued ones are never displaced. The first accepted frame after the
    /// consumer was idle asks for the consumer to be started.
    pub fn play(&mut self, samples: &[u32]) -> (r: PlayReport)
        requires
            old(self).wf(),
        ensures
            final(self).wf(),
            final(self)@ == old(self)@.after_play(frames_of(samples@)),
            r.accepted == old(self)@.accepted(frames_of(samples@).len()),
            r.accepted + r.dropped == frames_of(samples@).len(),
            r.start_consumer == (r.accepted > 0 && !old(self)@.pulling),
    {
        let ghost q0 = ring_frames(self.ring);
        let ghost batch = frames_of(samples@);
        let n: usize = samples.len() / 2;
        let mut i: usize = 0;
        let mut full = false;
        while i < n && !full
            invariant
                n == samples@.len() / 2,
                n == batch.len(),
                i <= n,
                batch == frames_of(samples@),
                ring_capacity(self.ring) == old(self)@.capacity,
                q0 == old(self)@.queue,
                old(self)@.wf(),
                ring_frames(self.ring) == q0 + batch.take(i as int),
                q0.len() + i <= old(self)@.capacity,
                full ==> q0.len() + i == old(self)@.capacity,
                self.paused == old(self).paused,
                self.pulling == old(self).pulling,
                self.rate == old(self).rate,
            decreases n - i + (if full { 0int } else { 1int }),
        {
            assert(2 * i + 1 < samples.len());
            let f: FrameBits = (samples[2 * i], samples[2 * i + 1]);
            assert(f == batch[i as int]);
            match ring_try_push(&mut self.ring, f) {
                Ok(()) => {
                    i = i + 1;
                    assert(ring_frames(self.ring) =~= q0 + batch.take(i as int));
                },
                Err(_) => {
                    full = true;
                },
            }
        }
        let accepted = i;
        let start_consumer = accepted > 0 && !self.pulling;
        if accepted > 0 {
            self.pulling = true;
        }
        PlayReport { accepted, dropped: n - accepted, start_consumer }
    }

    /// The decoder paused: queued frames are held back, not discarded.
    pub fn pause(&mut self)
        requires
            old(self).wf(),
        ensures
            final(self).wf(),
            final(self)@ == old(self)@.after_pause(),
    {
        self.paused = true;
    }

    /// The decoder resumed: queued frames may be pulled again.
    pub fn resume(&mut self)
        requires
            old(self).wf(),
        ensures
            final(self).wf(),
            final(self)@ == old(self)@.after_resume(),
    {
        self.paused = false;
    }

    /// The decoder flushed (on a seek): the consumer stops pulling and every
    /// queued frame is dropped.
    pub fn flush(&mut self)
        requires
            old(self).wf(),
        ensures
            final(self).wf(),
            final(self)@ == old(self)@.after_flush(),
    {
        self.pulling = false;
        ring_clear(&mut self.ring);
    }

    /// Serves the consumer's request for `frames` frames: the oldest queued
    /// frames, as many as are there up to `frames`, or none while paused or
    /// not signalled. A short result is for the caller to fill with silence.
    pub fn mix(&mut self, frames: usize) -> (r: Vec<FrameBits>)
        requires
            old(self).wf(),
        ensures
            final(self).wf(),
            final(self)@ == old(self)@.after_mix(frames as nat),
            r@ == old(self)@.pulled(frames as nat),
    {
        let mut out: Vec<FrameBits> = Vec::new();
        if self.paused || !self.pulling {
            proof {
                assert(self@.queue.skip(0) =~= self@.queue);
            }
            return out;
        }
        let ghost q0 = ring_frames(self.ring);
        proof {
            assert(q0.skip(0) =~= q0);
        }
        let mut drained = false;
        while out.len() < frames && !drained
            invariant
                out@.len() <= frames,
                out@.len() <= q0.len(),
                out@ == q0.take(out@.len() as int),
                ring_frames(self.ring) == q0.skip(out@.len() as int),
                ring_capacity(self.ring) == old(self)@.capacity,
                q0 == old(self)@.queue,
                drained ==> out@.len() == q0.len(),
                self.paused == old(self).paused,
                self.pulling == old(self).pulling,
                self.rate == old(self).rate,
            decreases frames - out@.len() + (if drained { 0int } else { 1int }),
        {
            let ghost k: int = out@.len() as int;
            match ring_try_pop(&mut self.ring) {
                Some(f) => {
                    out.push(f);
                    assert(out@ =~= q0.take(k + 1));
                    assert(ring_frames(self.ring) =~= q0.skip(k + 1));
                },
                None => {
                    drained = true;
                },
            }
        }
        proof {
            if frames as nat > q0.len() {
                assert(out@ =~= q0);
            }
        }
        out
    }

    /// Frames waiting for the consumer.
    pub fn queued(&self) -> (r: usize)
        ensures
            r == self@.queue.len(),
    {
        ring_len(&self.ring)
    }

    pub fn is_paused(&self) -> (r: bool)
        ensures
            r == self@.paused,
    {
        self.paused
    }

    /// Whether the consumer has been signalled to pull.
    pub fn is_pulling(&self) -> (r: bool)
        ensures
            r == self@.pulling,
    {
        self.pulling
    }

    pub fn mix_rate(&self) -> (r: u32)
        ensures
            r == self@.rate,
    {
        self.rate
    }
}

} // verus!
