//! The data-plane transport: a bounded FIFO of media units with non-blocking
//! send. One queue is created per subscriber; the hub holds the send side and
//! readers drain it through the hub. A closed queue still hands out what it
//! holds, then reports end-of-stream.

use vstd::prelude::*;
use crate::define::{MediaKind, MediaUnit};

verus! {

/// What a non-blocking send did.
#[derive(Clone, Copy, Debug, PartialEq, Eq, Structural)]
pub enum SendOutcome {
    /// The unit was appended to the queue.
    Delivered,
    /// The queue is at capacity; the unit was dropped so that a slow reader
    /// never stalls delivery to others.
    Full,
    /// The queue is closed; the unit was dropped.
    Closed,
}

/// What a receive found.
#[derive(Debug)]
pub enum RecvOutcome {
    /// The oldest queued unit.
    Unit(MediaUnit),
    /// Nothing queued right now, but the stream is still live.
    Empty,
    /// Nothing queued and the queue is closed: no unit will ever follow.
    EndOfStream,
}

/// A bounded FIFO channel of media units.
#[derive(Debug)]
pub struct MediaQueue {
    items: Vec<MediaUnit>,
    capacity: usize,
    closed: bool,
}

impl MediaQueue {
    /// The queued units, oldest first, as mathematical values.
    pub closed spec fn contents(&self) -> Seq<(MediaKind, Seq<u8>)> {
        self.items@.map_values(|u: MediaUnit| u@)
    }

    /// Whether the queue was closed: no further unit will be accepted.
    pub closed spec fn is_closed(&self) -> bool {
        self.closed
    }

    /// The bound the queue was created with.
    pub closed spec fn cap(&self) -> usize {
        self.capacity
    }

    /// An open, empty queue holding at most `capacity` units.
    pub fn new(capacity: usize) -> (r: Self)
        ensures
            r.contents() == Seq::<(MediaKind, Seq<u8>)>::empty(),
            !r.is_closed(),
            r.cap() == capacity,
    {
        let r = MediaQueue { items: Vec::new(), capacity, closed: false };
        proof {
            assert(r.contents() =~= Seq::<(MediaKind, Seq<u8>)>::empty());
        }
        r
    }

    /// Non-blocking send: appends the unit unless the queue is closed or at
    /// capacity, in which case the unit is dropped and the queue unchanged.
    pub fn try_send(&mut self, unit: MediaUnit) -> (r: SendOutcome)
        ensures
            final(self).is_closed() == old(self).is_closed(),
            final(self).cap() == old(self).cap(),
            old(self).is_closed() ==> r == SendOutcome::Closed && final(self).contents()
                == old(self).contents(),
            !old(self).is_closed() && old(self).contents().len() >= old(self).cap() ==> r
                == SendOutcome::Full && final(self).contents() == old(self).contents(),
            !old(self).is_closed() && old(self).contents().len() < old(self).cap() ==> r
                == SendOutcome::Delivered && final(self).contents() == old(
                self,
            ).contents().push(unit@),
    {
        if self.closed {
            return SendOutcome::Closed;
        }
        if self.items.len() >= self.capacity {
            return SendOutcome::Full;
        }
        self.items.push(unit);
        proof {
            assert(self.contents() =~= old(self).contents().push(unit@));
        }
        SendOutcome::Delivered
    }

    /// Appends units ahead of live data, disregarding the capacity bound:
    /// used to queue a stream handler's cached preamble for a new subscriber
    /// before any live unit.
    pub fn preload(&mut self, units: Vec<MediaUnit>)
        requires
            !old(self).is_closed(),
        ensures
            final(self).is_closed() == old(self).is_closed(),
            final(self).cap() == old(self).cap(),
            final(self).contents() == old(self).contents() + units@.map_values(
                |u: MediaUnit| u@,
            ),
    {
        let mut rest = units;
        self.items.append(&mut rest);
        proof {
            assert(self.contents() =~= old(self).contents() + units@.map_values(
                |u: MediaUnit| u@,
            ));
        }
    }

    /// Takes the oldest unit; `Empty` on an open queue with nothing waiting;
    /// `EndOfStream` once a closed queue is drained.
    pub fn recv(&mut self) -> (r: RecvOutcome)
        ensures
            final(self).is_closed() == old(self).is_closed(),
            final(self).cap() == old(self).cap(),
            old(self).contents().len() > 0 ==> (r matches RecvOutcome::Unit(u) && u@ == old(
                self,
            ).contents()[0]) && final(self).contents() == old(self).contents().drop_first(),
            old(self).contents().len() == 0 && !old(self).is_closed() ==> (r matches
                RecvOutcome::Empty) && final(self).contents() == old(self).contents(),
            old(self).contents().len() == 0 && old(self).is_closed() ==> (r matches
                RecvOutcome::EndOfStream) && final(self).contents() == old(self).contents(),
    {
        if self.items.len() > 0 {
            let u = self.items.remove(0);
            proof {
                assert(self.contents() =~= old(self).contents().drop_first());
            }
            RecvOutcome::Unit(u)
        } else if self.closed {
            RecvOutcome::EndOfStream
        } else {
            RecvOutcome::Empty
        }
    }

    /// Closes the queue: queued units stay readable, nothing more is accepted.
    pub fn close(&mut self)
        ensures
            final(self).is_closed(),
            final(self).cap() == old(self).cap(),
            final(self).contents() == old(self).contents(),
    {
        self.closed = true;
    }

    /// How many units are waiting.
    pub fn len(&self) -> (r: usize)
        ensures
            r == self.contents().len(),
    {
        self.items.len()
    }
}

} // verus!
