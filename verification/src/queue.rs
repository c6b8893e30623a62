//! The per-device packet handoff queue.
//!
//! Each tick the device pushes its freshly built packets onto this
//! queue; the device's worker pops them one by one, transmits each and
//! throttles.  The queue is unbounded by design, so a tick never stalls
//! on a slow device, at the cost of unbounded growth if a worker falls
//! behind.  It is meant for a single producer and a single consumer;
//! callers that share one queue between contexts wrap it in a mutex.
//!
//! Besides the pending packets, the queue carries the ghost history of
//! everything ever pushed and everything ever popped.  Its invariant —
//! pushed history equals popped history followed by pending packets —
//! is exactly the FIFO guarantee: packets leave for the wire in the
//! same relative order the tick produced them.

use vstd::prelude::*;

verus! {

use std::collections::VecDeque;

use crate::packet::Packet;

/// FIFO queue between a device's tick and its transmitting worker.
pub struct PacketQueue {
    items: VecDeque<Packet>,
    produced_h: Ghost<Seq<Packet>>,
    transmitted_h: Ghost<Seq<Packet>>,
}

impl PacketQueue {
    /// Packets pushed but not yet popped, oldest first.
    pub closed spec fn pending(&self) -> Seq<Packet> {
        self.items@
    }

    /// Every packet ever pushed, in push order.
    pub closed spec fn produced(&self) -> Seq<Packet> {
        self.produced_h@
    }

    /// Every packet ever popped, in pop order.
    pub closed spec fn transmitted(&self) -> Seq<Packet> {
        self.transmitted_h@
    }

    /// The FIFO invariant: what was produced is what was transmitted,
    /// in order, followed by what is still pending.
    pub closed spec fn wf(&self) -> bool {
        self.produced() == self.transmitted() + self.pending()
    }

    /// An empty queue with an empty history.
    pub fn new() -> (q: PacketQueue)
        ensures
            q.wf(),
            q.pending() == Seq::<Packet>::empty(),
            q.produced() == Seq::<Packet>::empty(),
            q.transmitted() == Seq::<Packet>::empty(),
    {
        let q = PacketQueue {
            items: VecDeque::new(),
            produced_h: Ghost(Seq::empty()),
            transmitted_h: Ghost(Seq::empty()),
        };
        proof {
            assert(q.produced() =~= q.transmitted() + q.pending());
        }
        q
    }

    /// Number of pending packets.
    pub fn len(&self) -> (n: usize)
        ensures
            n == self.pending().len(),
    {
        self.items.len()
    }

    /// Hand one packet to the worker, in emission order.
    pub fn push(&mut self, p: Packet)
        requires
            old(self).wf(),
        ensures
            final(self).wf(),
            final(self).pending() == old(self).pending().push(p),
            final(self).produced() == old(self).produced().push(p),
            final(self).transmitted() == old(self).transmitted(),
    {
        self.items.push_back(p);
        self.produced_h = Ghost(self.produced_h@.push(p));
        proof {
            assert(self.produced() =~= self.transmitted() + self.pending());
        }
    }

    /// Take the oldest pending packet for transmission, if any.
    pub fn pop(&mut self) -> (r: Option<Packet>)
        requires
            old(self).wf(),
        ensures
            final(self).wf(),
            match r {
                Some(p) => {
                    &&& old(self).pending().len() > 0
                    &&& p == old(self).pending()[0]
                    &&& final(self).pending() == old(self).pending().subrange(
                        1,
                        old(self).pending().len() as int,
                    )
                    &&& final(self).transmitted() == old(self).transmitted().push(p)
                    &&& final(self).produced() == old(self).produced()
                },
                None => {
                    &&& old(self).pending().len() == 0
                    &&& final(self).pending() == old(self).pending()
                    &&& final(self).produced() == old(self).produced()
                    &&& final(self).transmitted() == old(self).transmitted()
                },
            },
    {
        let r = self.items.pop_front();
        match r {
            Some(p) => {
                self.transmitted_h = Ghost(self.transmitted_h@.push(p));
                proof {
                    assert(self.produced() =~= self.transmitted() + self.pending());
                }
                Some(p)
            },
            None => None,
        }
    }

    /// Law (FIFO): at every point, the packets transmitted so far are
    /// exactly the first packets produced, in the same relative order,
    /// and the rest are still pending.
    pub proof fn lemma_fifo_order(&self)
        requires
            self.wf(),
        ensures
            self.transmitted().len() <= self.produced().len(),
            forall|i: int|
                0 <= i < self.transmitted().len() ==> self.transmitted()[i]
                    == self.produced()[i],
            self.produced() == self.transmitted() + self.pending(),
    {
    }
}

} // verus!
