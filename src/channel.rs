use vstd::prelude::*;

verus! {

/// Number of payloads a session's channel holds before new ones are dropped.
pub const DEFAULT_CHANNEL_CAPACITY: usize = 32;

/// What became of one payload handed to a channel.
#[derive(Debug, Clone, Copy, PartialEq, Eq)]
pub enum SendOutcome {
    /// The payload was queued behind the ones already pending.
    Queued,
    /// The channel was at capacity; the payload was dropped.
    Full,
    /// The channel was torn down; the payload was dropped.
    Closed,
}

/// The state of a delivery channel as the contracts see it.
pub struct ChannelView {
    /// The user whose session reads the channel.
    pub owner: u128,
    pub capacity: nat,
    pub open: bool,
    /// Payloads queued and not yet taken, oldest first.
    pub pending: Seq<String>,
}

impl ChannelView {
    pub open spec fn wf(self) -> bool {
        &&& self.pending.len() <= self.capacity
        &&& !self.open ==> self.pending.len() == 0
    }

    /// Whether a payload offered now would be queued.
    pub open spec fn accepts(self) -> bool {
        self.open && self.pending.len() < self.capacity
    }

    /// The channel after `m` is offered to it: queued at the back when there
    /// is room, dropped otherwise.
    pub open spec fn offer(self, m: String) -> ChannelView {
        if self.accepts() {
            ChannelView { pending: self.pending.push(m), ..self }
        } else {
            self
        }
    }

    /// The channel after its oldest payload is taken.
    pub open spec fn take(self) -> ChannelView {
        if self.pending.len() > 0 {
            ChannelView { pending: self.pending.drop_first(), ..self }
        } else {
            self
        }
    }

    /// The channel after it is torn down.
    pub open spec fn close(self) -> ChannelView {
        ChannelView { open: false, pending: Seq::empty(), ..self }
    }
}

/// A bounded, non-blocking hand-off from producers to one session's writer.
/// Payloads leave in the order they were queued; a full or closed channel
/// drops the newest payload instead of blocking the sender.
pub struct DeliveryChannel {
    owner: u128,
    capacity: usize,
    open: bool,
    pending: Vec<String>,
}

impl View for DeliveryChannel {
    type V = ChannelView;

    closed spec fn view(&self) -> ChannelView {
        ChannelView {
            owner: self.owner,
            capacity: self.capacity as nat,
            open: self.open,
            pending: self.pending@,
        }
    }
}

impl DeliveryChannel {
    pub fn new(owner: u128, capacity: usize) -> (r: DeliveryChannel)
        ensures
            r@.wf(),
            r@ == (ChannelView {
                owner,
                capacity: capacity as nat,
                open: true,
                pending: Seq::empty(),
            }),
    {
        DeliveryChannel { owner, capacity, open: true, pending: Vec::new() }
    }

    pub fn owner(&self) -> (r: u128)
        ensures
            r == self@.owner,
    {
        self.owner
    }

    pub fn capacity(&self) -> (r: usize)
        ensures
            r == self@.capacity,
    {
        self.capacity
    }

    pub fn is_open(&self) -> (r: bool)
        ensures
            r == self@.open,
    {
        self.open
    }

    pub fn len(&self) -> (r: usize)
        ensures
            r == self@.pending.len(),
    {
        self.pending.len()
    }

    /// Queues `m` unless the channel is closed or full; never blocks.
    pub fn send(&mut self, m: String) -> (r: SendOutcome)
        requires
            old(self)@.wf(),
        ensures
            final(self)@.wf(),
            final(self)@ == old(self)@.offer(m),
            r == (if !old(self)@.open {
                SendOutcome::Closed
            } else if old(self)@.accepts() {
                SendOutcome::Queued
            } else {
                SendOutcome::Full
            }),
    {
        if !self.open {
            SendOutcome::Closed
        } else if self.pending.len() < self.capacity {
            self.pending.push(m);
            SendOutcome::Queued
        } else {
            SendOutcome::Full
        }
    }

    /// Takes the oldest pending payload, if any.
    pub fn recv(&mut self) -> (r: Option<String>)
        requires
            old(self)@.wf(),
        ensures
            final(self)@.wf(),
            final(self)@ == old(self)@.take(),
            r == (if old(self)@.pending.len() > 0 {
                Some(old(self)@.pending[0])
            } else {
                None
            }),
    {
        if self.pending.len() == 0 {
            None
        } else {
            Some(self.pending.remove(0))
        }
    }

    /// Tears the channel down: pending payloads are discarded and later sends
    /// are dropped.
    pub fn close(&mut self)
        requires
            old(self)@.wf(),
        ensures
            final(self)@.wf(),
            final(self)@ == old(self)@.close(),
    {
        self.open = false;
        self.pending = Vec::new();
    }
}

} // verus!
