use vstd::prelude::*;

verus! {

/// Geometry of negotiated frames: packed 24-bit RGB, `pitch` bytes per row,
/// `lines` rows.
#[derive(Clone, Copy, Debug, PartialEq, Eq, Structural)]
pub struct FrameFormat {
    pub width: u32,
    pub height: u32,
    pub pitch: u32,
    pub lines: u32,
}

/// Size in bytes of one frame buffer of the format.
pub open spec fn buffer_len(f: FrameFormat) -> nat {
    (f.pitch * f.lines) as nat
}

/// Whether a frame of `width` x `height` pixels can be allocated: neither
/// side is zero and the row pitch and buffer size fit in 32 bits.
pub open spec fn format_supported(width: u32, height: u32) -> bool {
    &&& width > 0
    &&& height > 0
    &&& width * 3 <= u32::MAX
    &&& width * 3 * height <= u32::MAX
}

/// The format negotiated for `width` x `height` pixels.
pub open spec fn format_for(width: u32, height: u32) -> FrameFormat {
    FrameFormat { width, height, pitch: (width * 3) as u32, lines: height }
}

/// A format that negotiation can produce.
pub open spec fn format_valid(f: FrameFormat) -> bool {
    format_supported(f.width, f.height) && f == format_for(f.width, f.height)
}

/// Why a video callback was refused.
#[derive(Clone, Copy, Debug, PartialEq, Eq, Structural)]
pub enum VideoError {
    /// The requested frame size cannot be allocated; video is suppressed.
    Unsupported,
    /// No format has been negotiated.
    NotConfigured,
    /// A buffer is already in flight between lock and unlock.
    AlreadyLocked,
    /// No buffer is in flight.
    NotLocked,
    /// The buffer handed back does not have the negotiated size.
    WrongBufferSize,
}

/// A frame queued for the consumer's refresh tick.
pub struct DisplayFrame {
    pub format: FrameFormat,
    pub pixels: Vec<u8>,
    /// The consumer must recreate its image at the new size first.
    pub resized: bool,
}

/// Mathematical value of a queued frame.
pub struct DisplayView {
    pub format: FrameFormat,
    pub pixels: Seq<u8>,
    pub resized: bool,
}

impl View for DisplayFrame {
    type V = DisplayView;

    open spec fn view(&self) -> DisplayView {
        DisplayView { format: self.format, pixels: self.pixels@, resized: self.resized }
    }
}

/// Mathematical state of the video pipeline.
pub struct VideoModel {
    /// The negotiated format; `None` while unconfigured.
    pub format: Option<FrameFormat>,
    /// A buffer is out with the decoder, between lock and unlock.
    pub in_flight: bool,
    /// Contents of the frame buffer while it is held by the pipeline.
    pub frame: Seq<u8>,
    /// The buffer holds a complete decoded frame.
    pub has_frame: bool,
    /// The frame waiting for the consumer, if any.
    pub pending: Option<DisplayView>,
    /// A format change the consumer has not been told of yet.
    pub resize_pending: bool,
}

impl VideoModel {
    /// The pipeline's invariant: a buffer is only in flight under a format,
    /// and the held buffer always has the size of the current format.
    pub open spec fn wf(self) -> bool {
        &&& self.format is None ==> !self.in_flight && !self.has_frame && self.pending is None
        &&& self.format is Some ==> format_valid(self.format->Some_0)
        &&& self.in_flight ==> self.frame.len() == 0
        &&& (self.format is Some && !self.in_flight) ==> self.frame.len() == buffer_len(
            self.format->Some_0,
        )
        &&& (self.format is Some && self.pending is Some) ==> {
            &&& self.pending->Some_0.format == self.format->Some_0
            &&& self.pending->Some_0.pixels.len() == buffer_len(self.format->Some_0)
        }
    }

    pub open spec fn unconfigured() -> VideoModel {
        VideoModel {
            format: None,
            in_flight: false,
            frame: Seq::empty(),
            has_frame: false,
            pending: None,
            resize_pending: false,
        }
    }

    pub open spec fn can_negotiate(self, width: u32, height: u32) -> bool {
        !self.in_flight && format_supported(width, height)
    }

    pub open spec fn after_negotiate(self, width: u32, height: u32) -> VideoModel {
        if self.in_flight {
            self
        } else if !format_supported(width, height) {
            VideoModel::unconfigured()
        } else {
            let f = format_for(width, height);
            VideoModel {
                format: Some(f),
                in_flight: false,
                frame: Seq::new(buffer_len(f), |i: int| 0u8),
                has_frame: false,
                pending: None,
                resize_pending: true,
            }
        }
    }

    pub open spec fn can_lock(self) -> bool {
        self.format is Some && !self.in_flight
    }

    pub open spec fn after_lock(self) -> VideoModel {
        if self.can_lock() {
            VideoModel { in_flight: true, frame: Seq::empty(), ..self }
        } else {
            self
        }
    }

    /// Whether a buffer of `len` bytes handed back at unlock is accepted.
    pub open spec fn can_unlock(self, len: nat) -> bool {
        self.in_flight && self.format is Some && len == buffer_len(self.format->Some_0)
    }

    pub open spec fn after_unlock(self, pixels: Seq<u8>) -> VideoModel {
        if !self.in_flight {
            self
        } else if self.can_unlock(pixels.len()) {
            VideoModel { in_flight: false, frame: pixels, has_frame: true, ..self }
        } else {
            VideoModel::unconfigured()
        }
    }

    pub open spec fn can_display(self) -> bool {
        self.format is Some && !self.in_flight && self.has_frame
    }

    /// Queues the held frame, replacing an older queued one; a resize that
    /// the replaced frame carried is kept.
    pub open spec fn after_display(self) -> VideoModel {
        if self.can_display() {
            let resized = self.resize_pending || (self.pending is Some
                && self.pending->Some_0.resized);
            VideoModel {
                pending: Some(
                    DisplayView { format: self.format->Some_0, pixels: self.frame, resized },
                ),
                resize_pending: false,
                ..self
            }
        } else {
            self
        }
    }

    pub open spec fn after_take(self) -> VideoModel {
        VideoModel { pending: None, ..self }
    }
}

/// Hands decoded frame buffers from the decoder to the consumer.
///
/// One buffer exists per negotiated format. `lock` moves it out to the
/// decoder and `unlock` takes it back, so at most one buffer is ever in
/// flight and it cannot be reallocated meanwhile. `display` queues a copy of
/// the last complete frame in a one-slot, drop-oldest mailbox that the
/// consumer empties with `take_display`.
pub struct VideoPipeline {
    format: Option<FrameFormat>,
    buffer: Option<Vec<u8>>,
    in_flight: bool,
    has_frame: bool,
    pending: Option<DisplayFrame>,
    resize_pending: bool,
}

impl View for VideoPipeline {
    type V = VideoModel;

    closed spec fn view(&self) -> VideoModel {
        VideoModel {
            format: self.format,
            in_flight: self.in_flight,
            frame: match self.buffer {
                Some(b) => b@,
                None => Seq::empty(),
            },
            has_frame: self.has_frame,
            pending: match self.pending {
                Some(p) => Some(p@),
                None => None,
            },
            resize_pending: self.resize_pending,
        }
    }
}

impl VideoPipeline {
    pub closed spec fn wf(&self) -> bool {
        &&& self@.wf()
        &&& self.in_flight <==> self.buffer is None
        &&& self.format is None ==> (self.buffer is Some && self.buffer->Some_0@.len() == 0)
    }

    pub fn new() -> (r: VideoPipeline)
        ensures
            r.wf(),
            r@ == VideoModel::unconfigured(),
    {
        VideoPipeline {
            format: None,
            buffer: Some(Vec::new()),
            in_flight: false,
            has_frame: false,
            pending: None,
            resize_pending: false,
        }
    }

    /// Negotiates the frame format for `width` x `height` pixels and
    /// allocates a zeroed buffer for it. Fails while a buffer is in flight,
    /// and when the size cannot be allocated, in which case video stays
    /// suppressed until a later negotiation succeeds.
    pub fn format_negotiate(&mut self, width: u32, height: u32) -> (r: Result<
        FrameFormat,
        VideoError,
    >)
        requires
            old(self).wf(),
        ensures
            final(self).wf(),
            final(self)@ == old(self)@.after_negotiate(width, height),
            old(self)@.can_negotiate(width, height) ==> r == Ok::<FrameFormat, VideoError>(
                format_for(width, height),
            ),
            old(self)@.in_flight ==> r == Err::<FrameFormat, VideoError>(VideoError::AlreadyLocked),
            !old(self)@.in_flight && !format_supported(width, height) ==> r == Err::<
                FrameFormat,
                VideoError,
            >(VideoError::Unsupported),
    {
        if self.in_flight {
            return Err(VideoError::AlreadyLocked);
        }
        if width == 0 || height == 0 || width > u32::MAX / 3 || (width * 3) > u32::MAX / height {
            proof {
                if width > 0 && height > 0 && width <= u32::MAX / 3 {
                    assert((width * 3) > u32::MAX / height ==> width * 3 * height > u32::MAX)
                        by (nonlinear_arith)
                        requires
                            height > 0,
                    ;
                }
            }
            self.reset();
            return Err(VideoError::Unsupported);
        }
        proof {
            assert(width * 3 * height <= u32::MAX) by (nonlinear_arith)
                requires
                    height > 0,
                    (width * 3) <= u32::MAX / height,
            ;
        }
        let pitch: u32 = width * 3;
        let size: u32 = pitch * height;
        let f = FrameFormat { width, height, pitch, lines: height };
        let buf = zeroed(size as usize);
        self.format = Some(f);
        self.buffer = Some(buf);
        self.has_frame = false;
        self.pending = None;
        self.resize_pending = true;
        proof {
            assert(self@.frame =~= Seq::new(buffer_len(f), |i: int| 0u8));
        }
        Ok(f)
    }

    /// Lends the frame buffer to the decoder. Succeeds only under a
    /// negotiated format with no buffer in flight; the buffer then has the
    /// size of that format.
    pub fn lock(&mut self) -> (r: Result<Vec<u8>, VideoError>)
        requires
            old(self).wf(),
        ensures
            final(self).wf(),
            final(self)@ == old(self)@.after_lock(),
            r is Ok <==> old(self)@.can_lock(),
            r matches Ok(b) ==> b@ == old(self)@.frame && b@.len() == buffer_len(
                old(self)@.format->Some_0,
            ),
            old(self)@.format is None ==> r == Err::<Vec<u8>, VideoError>(
                VideoError::NotConfigured,
            ),
            old(self)@.format is Some && old(self)@.in_flight ==> r == Err::<Vec<u8>, VideoError>(
                VideoError::AlreadyLocked,
            ),
    {
        if self.format.is_none() {
            return Err(VideoError::NotConfigured);
        }
        if self.in_flight {
            return Err(VideoError::AlreadyLocked);
        }
        let b = self.buffer.take();
        self.in_flight = true;
        match b {
            Some(b) => Ok(b),
            None => Err(VideoError::NotConfigured),
        }
    }

    /// Takes the filled buffer back from the decoder; it becomes the frame
    /// visible to the consumer. A buffer of the wrong size is discarded and
    /// the pipeline falls back to unconfigured.
    pub fn unlock(&mut self, pixels: Vec<u8>) -> (r: Result<(), VideoError>)
        requires
            old(self).wf(),
        ensures
            final(self).wf(),
            final(self)@ == old(self)@.after_unlock(pixels@),
            r is Ok <==> old(self)@.can_unlock(pixels@.len()),
            !old(self)@.in_flight ==> r == Err::<(), VideoError>(VideoError::NotLocked),
            old(self)@.in_flight && !old(self)@.can_unlock(pixels@.len()) ==> r == Err::<
                (),
                VideoError,
            >(VideoError::WrongBufferSize),
    {
        if !self.in_flight {
            return Err(VideoError::NotLocked);
        }
        match self.format {
            Some(f) => {
                let size: u32 = f.pitch * f.lines;
                if pixels.len() as u64 == size as u64 {
                    self.buffer = Some(pixels);
                    self.in_flight = false;
                    self.has_frame = true;
                    Ok(())
                } else {
                    self.reset();
                    Err(VideoError::WrongBufferSize)
                }
            },
            None => {
                self.reset();
                Err(VideoError::WrongBufferSize)
            },
        }
    }

    /// Queues a copy of the last complete frame for the consumer, replacing
    /// a frame still queued. Returns whether a frame was queued.
    pub fn display(&mut self) -> (r: bool)
        requires
            old(self).wf(),
        ensures
            final(self).wf(),
            final(self)@ == old(self)@.after_display(),
            r == old(self)@.can_display(),
    {
        if self.in_flight || !self.has_frame {
            return false;
        }
        match (&self.format, &self.buffer) {
            (Some(f), Some(b)) => {
                let pixels = copy_bytes(b);
                let resized = self.resize_pending || match &self.pending {
                    Some(p) => p.resized,
                    None => false,
                };
                self.pending = Some(DisplayFrame { format: *f, pixels, resized });
                self.resize_pending = false;
                true
            },
            _ => false,
        }
    }

    /// The last complete frame, read in place by a consumer that takes
    /// frames synchronously; `None` while the buffer is in flight or before
    /// the first frame of the current format.
    pub fn frame(&self) -> (r: Option<&Vec<u8>>)
        requires
            self.wf(),
        ensures
            self@.can_display() ==> (r matches Some(b) && b@ == self@.frame),
            !self@.can_display() ==> r is None,
    {
        if self.in_flight || !self.has_frame || self.format.is_none() {
            return None;
        }
        self.buffer.as_ref()
    }

    /// Takes the queued frame, if any, on the consumer's tick.
    pub fn take_display(&mut self) -> (r: Option<DisplayFrame>)
        requires
            old(self).wf(),
        ensures
            final(self).wf(),
            final(self)@ == old(self)@.after_take(),
            match old(self)@.pending {
                Some(p) => (r matches Some(d) && d@ == p),
                None => r is None,
            },
    {
        self.pending.take()
    }

    /// Releases the per-format bookkeeping when the decoder tears video
    /// output down. Returns `true` exactly when a format was configured, so
    /// the release happens once.
    pub fn cleanup(&mut self) -> (r: bool)
        requires
            old(self).wf(),
        ensures
            final(self).wf(),
            final(self)@ == VideoModel::unconfigured(),
            r == old(self)@.format is Some,
    {
        let was = self.format.is_some();
        self.reset();
        was
    }

    fn reset(&mut self)
        ensures
            final(self).wf(),
            final(self)@ == VideoModel::unconfigured(),
    {
        self.format = None;
        self.buffer = Some(Vec::new());
        self.in_flight = false;
        self.has_frame = false;
        self.pending = None;
        self.resize_pending = false;
        proof {
            assert(self@.frame =~= Seq::<u8>::empty());
        }
    }

    /// The negotiated format, if any.
    pub fn format(&self) -> (r: Option<FrameFormat>)
        ensures
            r == self@.format,
    {
        self.format
    }

    /// Whether a buffer is out with the decoder.
    pub fn is_locked(&self) -> (r: bool)
        ensures
            r == self@.in_flight,
    {
        self.in_flight
    }
}

/// One call the decoder makes into the pipeline, or the consumer's take.
pub enum VideoCall {
    Negotiate(u32, u32),
    Lock,
    Unlock(Seq<u8>),
    Display,
    Take,
    Cleanup,
}

impl VideoModel {
    pub open spec fn step(self, c: VideoCall) -> VideoModel {
        match c {
            VideoCall::Negotiate(w, h) => self.after_negotiate(w, h),
            VideoCall::Lock => self.after_lock(),
            VideoCall::Unlock(pixels) => self.after_unlock(pixels),
            VideoCall::Display => self.after_display(),
            VideoCall::Take => self.after_take(),
            VideoCall::Cleanup => VideoModel::unconfigured(),
        }
    }

    /// The state after the calls, in order.
    pub open spec fn run(self, calls: Seq<VideoCall>) -> VideoModel
        decreases calls.len(),
    {
        if calls.len() == 0 {
            self
        } else {
            self.run(calls.drop_last()).step(calls.last())
        }
    }
}

/// Some call of `calls` negotiated the format `f`.
pub open spec fn negotiated_in(calls: Seq<VideoCall>, f: FrameFormat) -> bool {
    exists|i: int|
        0 <= i < calls.len() && #[trigger] calls[i] == VideoCall::Negotiate(f.width, f.height)
            && format_for(f.width, f.height) == f
}

proof fn lemma_step_wf(m: VideoModel, c: VideoCall)
    requires
        m.wf(),
    ensures
        m.step(c).wf(),
{
    match c {
        VideoCall::Negotiate(w, h) => {
            if !m.in_flight && format_supported(w, h) {
                let f = format_for(w, h);
                assert(f.pitch * f.lines == w * 3 * h);
            }
        },
        _ => {},
    }
}

/// Whatever sequence of calls the pipeline receives, it keeps its
/// invariant: at most one buffer is in flight, and the buffer it holds has
/// the size of the current format. While a buffer is in flight a further lock
/// hands out nothing and a negotiation reallocates nothing. Starting
/// unconfigured, every format in force, and so the size of every buffer a
/// lock hands out, comes from an earlier negotiation.
pub proof fn lemma_single_buffer_in_flight(m: VideoModel, calls: Seq<VideoCall>)
    requires
        m.wf(),
    ensures
        m.run(calls).wf(),
        m.run(calls).in_flight ==> m.run(calls).after_lock() == m.run(calls),
        m.run(calls).in_flight ==> forall|w: u32, h: u32|
            m.run(calls).after_negotiate(w, h) == m.run(calls),
        m == VideoModel::unconfigured() && m.run(calls).format is Some ==> negotiated_in(
            calls,
            m.run(calls).format->Some_0,
        ),
    decreases calls.len(),
{
    if calls.len() > 0 {
        let prefix = calls.drop_last();
        lemma_single_buffer_in_flight(m, prefix);
        lemma_step_wf(m.run(prefix), calls.last());
        let s = m.run(prefix);
        let t = m.run(calls);
        if m == VideoModel::unconfigured() && t.format is Some {
            let f = t.format->Some_0;
            match calls.last() {
                VideoCall::Negotiate(w, h) => {
                    if s.in_flight {
                        let i = choose|i: int|
                            0 <= i < prefix.len() && #[trigger] prefix[i] == VideoCall::Negotiate(
                                f.width,
                                f.height,
                            ) && format_for(f.width, f.height) == f;
                        assert(calls[i] == prefix[i]);
                    } else {
                        assert(calls[calls.len() - 1] == VideoCall::Negotiate(f.width, f.height));
                    }
                },
                _ => {
                    assert(s.format == t.format);
                    let i = choose|i: int|
                        0 <= i < prefix.len() && #[trigger] prefix[i] == VideoCall::Negotiate(
                            f.width,
                            f.height,
                        ) && format_for(f.width, f.height) == f;
                    assert(calls[i] == prefix[i]);
                },
            }
        }
    }
}

fn zeroed(n: usize) -> (r: Vec<u8>)
    ensures
        r@ == Seq::new(n as nat, |i: int| 0u8),
{
    let mut v: Vec<u8> = Vec::with_capacity(n);
    let mut i: usize = 0;
    while i < n
        invariant
            i <= n,
            v@ == Seq::new(i as nat, |k: int| 0u8),
        decreases n - i,
    {
        v.push(0u8);
        i = i + 1;
        proof {
            assert(v@ =~= Seq::new(i as nat, |k: int| 0u8));
        }
    }
    v
}

fn copy_bytes(src: &Vec<u8>) -> (r: Vec<u8>)
    ensures
        r@ == src@,
{
    let mut v: Vec<u8> = Vec::with_capacity(src.len());
    let mut i: usize = 0;
    while i < src.len()
        invariant
            i <= src@.len(),
            v@ == src@.subrange(0, i as int),
        decreases src@.len() - i,
    {
        v.push(src[i]);
        i = i + 1;
        proof {
            assert(v@ =~= src@.subrange(0, i as int));
        }
    }
    proof {
        assert(v@ =~= src@);
    }
    v
}

} // verus!
