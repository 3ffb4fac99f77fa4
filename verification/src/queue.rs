//! The shared log buffer between intake and shipment.
//!
//! Producers append parsed logs; the drain cycle moves the whole contents
//! out at once and puts a failed batch back. The locking that shares one
//! queue between tasks lives outside the library; the operations here are
//! the serialized critical sections.
use vstd::prelude::*;

use crate::models::Log;

verus! {

/// An ordered buffer of logs awaiting shipment.
pub struct LogQueue {
    items: Vec<Log>,
}

impl View for LogQueue {
    type V = Seq<Log>;

    closed spec fn view(&self) -> Seq<Log> {
        self.items@
    }
}

/// A fresh, empty queue.
pub fn new_log_queue() -> (q: LogQueue)
    ensures
        q@ == Seq::<Log>::empty(),
{
    LogQueue { items: Vec::new() }
}

impl LogQueue {
    /// How many logs are waiting.
    pub fn len(&self) -> (r: usize)
        ensures
            r == self@.len(),
    {
        self.items.len()
    }

    /// Append a batch at the tail, in order.
    pub fn append(&mut self, batch: Vec<Log>)
        ensures
            final(self)@ == old(self)@ + batch@,
    {
        let mut b = batch;
        self.items.append(&mut b);
    }

    /// Push one log at the tail.
    pub fn push(&mut self, log: Log)
        ensures
            final(self)@ == old(self)@.push(log),
    {
        self.items.push(log);
    }

    /// Atomically move the entire contents out, leaving the queue empty.
    pub fn drain_all(&mut self) -> (r: Vec<Log>)
        ensures
            r@ == old(self)@,
            final(self)@ == Seq::<Log>::empty(),
    {
        self.items.split_off(0)
    }

    /// Put a failed batch back, after whatever has arrived meanwhile.
    pub fn extend(&mut self, batch: Vec<Log>)
        ensures
            final(self)@ == old(self)@ + batch@,
    {
        self.append(batch);
    }
}

/// Draining leaves the queue empty, so a following `extend(x)` leaves it
/// holding exactly the elements of `x`: what an emptied queue ends up with
/// is `x` alone.
pub proof fn lemma_drain_then_extend(x: Seq<Log>)
    ensures
        Seq::<Log>::empty() + x == x,
{
    assert(Seq::<Log>::empty() + x =~= x);
}

} // verus!
