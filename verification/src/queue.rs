//! The pending outbound message queue: protocol messages produced by the
//! negotiation core, awaiting the transport's next send opportunity. Each
//! message is produced once and drained exactly once; draining atomically
//! empties the queue, so no entry is lost or duplicated.
//!
//! Generic over `M`, the (message, send-instructions) pair of the transport;
//! the queue never reads it.

use vstd::prelude::*;

verus! {

/// First-in-first-out queue of messages awaiting transmission, unbounded.
pub struct PendingOutboundQueue<M> {
    messages: Vec<M>,
}

impl<M> View for PendingOutboundQueue<M> {
    type V = Seq<M>;

    closed spec fn view(&self) -> Seq<M> {
        self.messages@
    }
}

impl<M> PendingOutboundQueue<M> {
    pub fn new() -> (r: Self)
        ensures
            r@ =~= Seq::<M>::empty(),
    {
        PendingOutboundQueue { messages: Vec::new() }
    }

    /// Appends a message; everything already queued stays, in order.
    pub fn enqueue(&mut self, message: M)
        ensures
            final(self)@ =~= old(self)@.push(message),
    {
        self.messages.push(message);
    }

    /// Drains the whole queue, leaving it empty: every queued message is
    /// handed out exactly once, in the order it was queued.
    pub fn release_all(&mut self) -> (r: Vec<M>)
        ensures
            r@ == old(self)@,
            final(self)@ =~= Seq::<M>::empty(),
    {
        let mut drained: Vec<M> = Vec::new();
        core::mem::swap(&mut self.messages, &mut drained);
        drained
    }

    pub fn len(&self) -> (r: usize)
        ensures
            r == self@.len(),
    {
        self.messages.len()
    }

    pub fn is_empty(&self) -> (r: bool)
        ensures
            r == (self@.len() == 0),
    {
        self.messages.len() == 0
    }
}

} // verus!
