//! Admission control: a small fixed number of requests may be in flight
//! per provider at once; excess callers queue first-in-first-out behind
//! the limiter rather than failing fast.

use vstd::prelude::*;

verus! {

/// The limiter's value: the bound, the requests in flight, and the
/// waiting tickets in arrival order.
pub struct LimiterV {
    pub capacity: usize,
    pub in_flight: usize,
    pub queue: Seq<u64>,
    pub next_ticket: u64,
}

/// Every waiting ticket was handed out, and no ticket waits twice.
pub open spec fn spec_limiter_wf(s: LimiterV) -> bool {
    &&& s.in_flight <= s.capacity
    &&& forall|i: int| 0 <= i < s.queue.len() ==> #[trigger] s.queue[i] < s.next_ticket
    &&& forall|i: int, j: int|
        #![trigger s.queue[i], s.queue[j]]
        0 <= i < j < s.queue.len() ==> s.queue[i] != s.queue[j]
}

/// The admission limiter.
pub struct RequestLimiter {
    capacity: usize,
    in_flight: usize,
    queue: Vec<u64>,
    next_ticket: u64,
}

impl View for RequestLimiter {
    type V = LimiterV;

    closed spec fn view(&self) -> LimiterV {
        LimiterV {
            capacity: self.capacity,
            in_flight: self.in_flight,
            queue: self.queue@,
            next_ticket: self.next_ticket,
        }
    }
}

impl RequestLimiter {
    /// A limiter that admits at most `capacity` requests at once.
    pub fn new(capacity: usize) -> (r: RequestLimiter)
        ensures
            spec_limiter_wf(r@),
            r@.capacity == capacity,
            r@.in_flight == 0,
            r@.queue == Seq::<u64>::empty(),
    {
        RequestLimiter { capacity, in_flight: 0, queue: Vec::new(), next_ticket: 0 }
    }

    pub fn in_flight(&self) -> (r: usize)
        ensures
            r == self@.in_flight,
    {
        self.in_flight
    }

    /// Whether another ticket can still be handed out.
    pub fn can_enqueue(&self) -> (r: bool)
        ensures
            r == (self@.next_ticket < u64::MAX),
    {
        self.next_ticket < u64::MAX
    }

    /// Joins the queue; the returned ticket is fresh.
    pub fn enqueue(&mut self) -> (r: u64)
        requires
            spec_limiter_wf(old(self)@),
            old(self)@.next_ticket < u64::MAX,
        ensures
            spec_limiter_wf(final(self)@),
            final(self)@.queue == old(self)@.queue.push(r),
            r == old(self)@.next_ticket,
            final(self)@.in_flight == old(self)@.in_flight,
            final(self)@.capacity == old(self)@.capacity,
    {
        let ticket = self.next_ticket;
        self.queue.push(ticket);
        self.next_ticket = self.next_ticket + 1;
        proof {
            let oldq = old(self)@.queue;
            let newq = self@.queue;
            assert(newq =~= oldq.push(ticket));
            assert forall|i: int| 0 <= i < newq.len() implies #[trigger] newq[i]
                < self@.next_ticket by {
                if i < oldq.len() {
                    assert(newq[i] == oldq[i]);
                }
            }
            assert forall|i: int, j: int|
                #![trigger newq[i], newq[j]]
                0 <= i < j < newq.len() implies newq[i] != newq[j] by {
                if j < oldq.len() {
                    assert(newq[i] == oldq[i] && newq[j] == oldq[j]);
                } else {
                    assert(newq[j] == ticket);
                    assert(newq[i] == oldq[i]);
                    assert(oldq[i] < ticket);
                }
            }
        }
        ticket
    }

    /// Whether this ticket is next and a slot is free.
    pub fn ready(&self, ticket: u64) -> (r: bool)
        ensures
            r == (self@.in_flight < self@.capacity && self@.queue.len() > 0 && self@.queue[0]
                == ticket),
    {
        self.in_flight < self.capacity && self.queue.len() > 0 && *vstd::slice::slice_index_get(
            self.queue.as_slice(),
            0,
        ) == ticket
    }

    /// Lets the ticket at the head of the queue enter: callers proceed in
    /// the order they arrived, never past one another.
    pub fn acquire(&mut self, ticket: u64)
        requires
            spec_limiter_wf(old(self)@),
            old(self)@.in_flight < old(self)@.capacity,
            old(self)@.queue.len() > 0,
            old(self)@.queue[0] == ticket,
        ensures
            spec_limiter_wf(final(self)@),
            final(self)@.queue == old(self)@.queue.drop_first(),
            final(self)@.in_flight == old(self)@.in_flight + 1,
            final(self)@.capacity == old(self)@.capacity,
    {
        let _ = self.queue.remove(0);
        self.in_flight = self.in_flight + 1;
        proof {
            let oldq = old(self)@.queue;
            let newq = self@.queue;
            assert(newq =~= oldq.drop_first());
            assert forall|i: int| 0 <= i < newq.len() implies #[trigger] newq[i]
                < self@.next_ticket by {
                assert(newq[i] == oldq[i + 1]);
            }
            assert forall|i: int, j: int|
                #![trigger newq[i], newq[j]]
                0 <= i < j < newq.len() implies newq[i] != newq[j] by {
                assert(newq[i] == oldq[i + 1] && newq[j] == oldq[j + 1]);
            }
        }
    }

    /// Releases one slot when a request finishes or its consumer stops
    /// polling.
    pub fn release(&mut self)
        requires
            spec_limiter_wf(old(self)@),
            old(self)@.in_flight > 0,
        ensures
            spec_limiter_wf(final(self)@),
            final(self)@.in_flight == old(self)@.in_flight - 1,
            final(self)@.queue == old(self)@.queue,
            final(self)@.capacity == old(self)@.capacity,
    {
        self.in_flight = self.in_flight - 1;
        proof {
            assert(self@.queue == old(self)@.queue);
            assert forall|i: int| 0 <= i < self@.queue.len() implies #[trigger] self@.queue[i]
                < self@.next_ticket by {
                assert(old(self)@.queue[i] < old(self)@.next_ticket);
            }
        }
    }
}

} // verus!
