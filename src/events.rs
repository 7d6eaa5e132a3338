use vstd::prelude::*;

verus! {

/// A state-change notification of the engine, relayed to the host.
#[derive(Clone, Copy, Debug, PartialEq, Eq, Structural)]
pub enum PlayerEvent {
    Opening,
    Buffering,
    Playing,
    Paused,
    Stopped,
    Forward,
    Backward,
    Stopping,
}

/// Notifications posted on engine threads and delivered on the host's own
/// thread, in the order they were posted.
pub struct EventRelay {
    pending: Vec<PlayerEvent>,
}

impl View for EventRelay {
    type V = Seq<PlayerEvent>;

    closed spec fn view(&self) -> Seq<PlayerEvent> {
        self.pending@
    }
}

impl EventRelay {
    pub fn new() -> (r: EventRelay)
        ensures
            r@ == Seq::<PlayerEvent>::empty(),
    {
        EventRelay { pending: Vec::new() }
    }

    /// Posts a notification, behind every one posted before it.
    pub fn post(&mut self, e: PlayerEvent)
        ensures
            final(self)@ == old(self)@.push(e),
    {
        self.pending.push(e);
    }

    /// Takes every pending notification, oldest first.
    pub fn drain(&mut self) -> (r: Vec<PlayerEvent>)
        ensures
            r@ == old(self)@,
            final(self)@ == Seq::<PlayerEvent>::empty(),
    {
        let mut out: Vec<PlayerEvent> = Vec::new();
        std::mem::swap(&mut out, &mut self.pending);
        out
    }

    /// Number of notifications waiting for delivery.
    pub fn len(&self) -> (r: usize)
        ensures
            r == self@.len(),
    {
        self.pending.len()
    }
}

} // verus!
