//! The bounded queue that hands resolved events to a polling consumer, and
//! the decision a poll makes between cancellation, delivery and closure.

use crate::code::Event;
use crate::table::EventModel;
use vstd::prelude::*;

verus! {

/// Resolved events waiting for a polling consumer, at most `capacity` of
/// them, oldest first.
pub struct EventQueue {
    events: Vec<Event>,
    capacity: usize,
    closed: bool,
}

/// What a poll comes to.
pub enum PollStep {
    /// The oldest waiting event, now taken from the queue.
    Ready(Event),
    /// No event: the poll was cancelled, or the queue is closed and empty.
    Done,
    /// No event yet: the consumer waits for the next offer, close or cancel.
    Pending,
}

impl EventQueue {
    /// The waiting events, oldest first.
    pub closed spec fn pending(&self) -> Seq<EventModel> {
        self.events@.map_values(|e: Event| e@)
    }

    /// The most events that can wait at once.
    pub closed spec fn capacity(&self) -> nat {
        self.capacity as nat
    }

    /// Whether the queue takes no more events.
    pub closed spec fn is_closed(&self) -> bool {
        self.closed
    }

    pub closed spec fn wf(&self) -> bool {
        self.events@.len() <= self.capacity
    }

    /// An open, empty queue for at most `capacity` events.
    pub fn new(capacity: usize) -> (r: EventQueue)
        ensures
            r.wf(),
            r.pending() == Seq::<EventModel>::empty(),
            r.capacity() == capacity,
            !r.is_closed(),
    {
        let r = EventQueue { events: Vec::new(), capacity, closed: false };
        assert(r.pending() =~= Seq::<EventModel>::empty());
        r
    }

    /// Adds an event without waiting: `false`, and the event dropped, when
    /// the queue is closed or full.
    pub fn offer(&mut self, event: Event) -> (r: bool)
        requires
            old(self).wf(),
        ensures
            final(self).wf(),
            r <==> !old(self).is_closed() && old(self).pending().len() < old(self).capacity(),
            final(self).pending() == (if r { old(self).pending().push(event@) } else { old(self).pending() }),
            final(self).capacity() == old(self).capacity(),
            final(self).is_closed() == old(self).is_closed(),
    {
        if self.closed || self.events.len() >= self.capacity {
            return false;
        }
        let ghost e = event@;
        self.events.push(event);
        assert(self.pending() =~= old(self).pending().push(e));
        true
    }

    /// Closes the queue: waiting events can still be polled, new ones are
    /// refused.
    pub fn close(&mut self)
        requires
            old(self).wf(),
        ensures
            final(self).wf(),
            final(self).is_closed(),
            final(self).pending() == old(self).pending(),
            final(self).capacity() == old(self).capacity(),
    {
        self.closed = true;
    }

    /// One poll. Cancellation wins over a waiting event and leaves the queue
    /// as it is; otherwise the oldest event is delivered; a closed, empty
    /// queue gives no event; an open, empty one makes the consumer wait.
    pub fn poll(&mut self, cancelled: bool) -> (r: PollStep)
        requires
            old(self).wf(),
        ensures
            final(self).wf(),
            final(self).capacity() == old(self).capacity(),
            final(self).is_closed() == old(self).is_closed(),
            cancelled ==> r is Done && final(self).pending() == old(self).pending(),
            !cancelled && old(self).pending().len() > 0 ==> (r matches PollStep::Ready(e) && e@
                == old(self).pending()[0] && final(self).pending() == old(self).pending().drop_first()),
            !cancelled && old(self).pending().len() == 0 ==> final(self).pending() == old(self).pending()
                && (if old(self).is_closed() { r is Done } else { r is Pending }),
    {
        if cancelled {
            return PollStep::Done;
        }
        if self.events.len() > 0 {
            let e = self.events.remove(0);
            assert(self.pending() =~= old(self).pending().drop_first());
            return PollStep::Ready(e);
        }
        if self.closed {
            PollStep::Done
        } else {
            PollStep::Pending
        }
    }
}

} // verus!
