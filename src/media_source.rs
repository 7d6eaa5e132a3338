use vstd::prelude::*;

verus! {

/// Status the engine's I/O callbacks return for success.
pub const STATUS_OK: i32 = 0;

/// Status the engine's I/O callbacks return for failure.
pub const STATUS_ERROR: i32 = -1;

/// Mathematical state of a media source cursor.
pub struct SourceState {
    pub opened: bool,
    pub closed: bool,
    pub length: nat,
    pub position: nat,
}

impl SourceState {
    /// The source can serve reads and seeks.
    pub open spec fn is_readable(self) -> bool {
        self.opened && !self.closed
    }

    /// Bytes left between the read position and the end of the stream.
    pub open spec fn remaining(self) -> nat {
        if self.position <= self.length {
            (self.length - self.position) as nat
        } else {
            0
        }
    }

    /// How many bytes a read of `requested` bytes may take from the stream:
    /// no more than remain, and no more than a byte count the engine's
    /// signed result can carry.
    pub open spec fn read_span(self, requested: nat) -> nat {
        let n = if requested <= self.remaining() {
            requested
        } else {
            self.remaining()
        };
        if n <= isize::MAX {
            n
        } else {
            isize::MAX as nat
        }
    }
}

/// Bookkeeping of the byte stream behind a media item: whether it was opened
/// and closed, its total length and the read position.
///
/// The stream itself is read by the caller; each operation takes what the
/// stream reported and decides what the engine is told.
pub struct MediaSource {
    opened: bool,
    closed: bool,
    length: u64,
    position: u64,
}

impl View for MediaSource {
    type V = SourceState;

    closed spec fn view(&self) -> SourceState {
        SourceState {
            opened: self.opened,
            closed: self.closed,
            length: self.length as nat,
            position: self.position as nat,
        }
    }
}

impl MediaSource {
    pub closed spec fn wf(&self) -> bool {
        self.position <= self.length
    }

    pub fn new() -> (r: MediaSource)
        ensures
            r.wf(),
            r@ == (SourceState { opened: false, closed: false, length: 0, position: 0 }),
    {
        MediaSource { opened: false, closed: false, length: 0, position: 0 }
    }

    /// Handles the engine's open request. `stream_length` is the length of the
    /// opened stream, or `None` when opening it failed.
    ///
    /// On success the read position goes back to zero and the length is
    /// reported with `STATUS_OK`.
    pub fn open(&mut self, stream_length: Option<u64>) -> (r: (i32, u64))
        requires
            old(self).wf(),
        ensures
            final(self).wf(),
            match stream_length {
                Some(len) if !old(self)@.closed => {
                    &&& r == (STATUS_OK, len)
                    &&& final(self)@ == (SourceState {
                        opened: true,
                        closed: false,
                        length: len as nat,
                        position: 0,
                    })
                },
                _ => r == (STATUS_ERROR, 0u64) && final(self)@ == old(self)@,
            },
    {
        match stream_length {
            Some(len) => {
                if self.closed {
                    (STATUS_ERROR, 0)
                } else {
                    self.opened = true;
                    self.length = len;
                    self.position = 0;
                    (STATUS_OK, len)
                }
            },
            None => (STATUS_ERROR, 0),
        }
    }

    /// Number of bytes the caller should ask the stream for when the engine
    /// requests `requested` bytes: never past the end of the stream, and zero
    /// when the source is not readable.
    pub fn read_span(&self, requested: usize) -> (r: usize)
        requires
            self.wf(),
        ensures
            self@.is_readable() ==> r == self@.read_span(requested as nat),
            !self@.is_readable() ==> r == 0,
    {
        if !self.opened || self.closed {
            return 0;
        }
        let remaining: u64 = self.length - self.position;
        let n: u64 = if (requested as u64) <= remaining {
            requested as u64
        } else {
            remaining
        };
        if n <= isize::MAX as u64 {
            n as usize
        } else {
            isize::MAX as usize
        }
    }

    /// Completes a read of `requested` bytes. `outcome` is the number of bytes
    /// the stream delivered for a request of `read_span(requested)` bytes, or
    /// `None` when the stream reported an error.
    ///
    /// Returns the number of bytes read, zero at the end of the stream, or a
    /// negative value for an error. At the end of a readable stream the result
    /// is zero whatever the stream reported.
    pub fn complete_read(&mut self, requested: usize, outcome: Option<usize>) -> (r: isize)
        requires
            old(self).wf(),
        ensures
            final(self).wf(),
            !old(self)@.is_readable() ==> r == -1 && final(self)@ == old(self)@,
            old(self)@.is_readable() && old(self)@.read_span(requested as nat) == 0 ==> r == 0
                && final(self)@ == old(self)@,
            old(self)@.is_readable() && old(self)@.read_span(requested as nat) > 0 ==> match outcome {
                Some(n) if n <= old(self)@.read_span(requested as nat) => {
                    &&& r == n
                    &&& final(self)@ == (SourceState {
                        position: (old(self)@.position + n) as nat,
                        ..old(self)@
                    })
                },
                _ => r == -1 && final(self)@ == old(self)@,
            },
    {
        if !self.opened || self.closed {
            return -1;
        }
        let span = self.read_span(requested);
        if span == 0 {
            return 0;
        }
        match outcome {
            Some(n) => {
                if n <= span {
                    proof {
                        assert(n as int <= self.length - self.position);
                    }
                    self.position = self.position + n as u64;
                    n as isize
                } else {
                    -1
                }
            },
            None => -1,
        }
    }

    /// Whether a seek to `offset` may be passed on to the stream: the source
    /// is readable and the offset lies within the stream.
    pub fn seek_allowed(&self, offset: u64) -> (r: bool)
        ensures
            r == (self@.is_readable() && offset <= self@.length),
    {
        self.opened && !self.closed && offset <= self.length
    }

    /// Completes a seek to `offset`; `stream_ok` tells whether the stream
    /// performed it. Returns `STATUS_OK` and moves the read position only when
    /// the seek was allowed and the stream performed it.
    pub fn complete_seek(&mut self, offset: u64, stream_ok: bool) -> (r: i32)
        requires
            old(self).wf(),
        ensures
            final(self).wf(),
            (old(self)@.is_readable() && offset <= old(self)@.length && stream_ok) ==> r == STATUS_OK
                && final(self)@ == (SourceState { position: offset as nat, ..old(self)@ }),
            !(old(self)@.is_readable() && offset <= old(self)@.length && stream_ok) ==> r
                == STATUS_ERROR && final(self)@ == old(self)@,
    {
        if self.seek_allowed(offset) && stream_ok {
            self.position = offset;
            STATUS_OK
        } else {
            STATUS_ERROR
        }
    }

    /// Handles the engine's close request. Returns `true` exactly once: the
    /// first time, when the caller must release the stream.
    pub fn close(&mut self) -> (r: bool)
        requires
            old(self).wf(),
        ensures
            final(self).wf(),
            r == !old(self)@.closed,
            final(self)@ == (SourceState { closed: true, ..old(self)@ }),
    {
        let first = !self.closed;
        self.closed = true;
        first
    }

    /// Length of the stream reported at open.
    pub fn length(&self) -> (r: u64)
        ensures
            r == self@.length,
    {
        self.length
    }

    /// Current read position.
    pub fn position(&self) -> (r: u64)
        ensures
            r == self@.position,
    {
        self.position
    }
}

} // verus!
