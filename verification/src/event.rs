//! Fixed-capacity queue of UI intents.
//!
//! Interrupt handlers push scroll requests and deferred writes into the
//! queue; the main loop pops at most one per iteration. The queue is a
//! circular buffer with a head index (next entry to pop) and a tail index
//! (next slot to fill). A push onto a full queue drops the event silently,
//! so the producer never blocks; a pop from an empty queue returns nothing.
//!
//! The abstract content is the sequence of queued events, oldest first:
//! `push` appends to it and `pop` removes its front, so the pop order always
//! equals the push order, and the content never exceeds `capacity - 1`
//! events (one slot stays free to tell a full queue from an empty one).

use vstd::prelude::*;
use vstd::pervasive::VecAdditionalExecFns;

verus! {

/// Number of slots of the queue; at most `UI_QUEUE_SIZE - 1` events queue up.
pub const UI_QUEUE_SIZE: usize = 128;

/// One UI intent carried from interrupt context to the main loop.
#[derive(Debug, Clone, Copy, PartialEq, Eq)]
pub enum UiEvent {
    ScrollDown,
    ScrollUp,
    WriteStr(&'static str),
}

/// The fixed-capacity circular event queue.
pub struct UiEventQueue {
    events: Vec<UiEvent>,
    head: usize,
    tail: usize,
}

impl UiEventQueue {
    /// Structural invariant: the storage holds exactly `UI_QUEUE_SIZE` slots
    /// and both indices point into it.
    pub closed spec fn wf(self) -> bool {
        &&& self.events@.len() == UI_QUEUE_SIZE
        &&& self.head < UI_QUEUE_SIZE
        &&& self.tail < UI_QUEUE_SIZE
    }

    /// Number of queued events.
    pub closed spec fn spec_len(self) -> int {
        if self.head <= self.tail {
            self.tail - self.head
        } else {
            UI_QUEUE_SIZE - self.head + self.tail
        }
    }

    /// The storage slot of the `i`-th queued event (counting from the head).
    pub closed spec fn slot_of(self, i: int) -> int {
        if self.head + i < UI_QUEUE_SIZE {
            self.head + i
        } else {
            self.head + i - UI_QUEUE_SIZE
        }
    }

    /// The queued events, oldest first.
    pub closed spec fn contents(self) -> Seq<UiEvent> {
        Seq::new(self.spec_len() as nat, |i: int| self.events@[self.slot_of(i)])
    }

    /// An empty queue.
    pub fn new() -> (q: UiEventQueue)
        ensures
            q.wf(),
            q.contents() == Seq::<UiEvent>::empty(),
    {
        let mut events: Vec<UiEvent> = Vec::new();
        while events.len() < UI_QUEUE_SIZE
            invariant
                events@.len() <= UI_QUEUE_SIZE,
            decreases UI_QUEUE_SIZE - events@.len(),
        {
            events.push(UiEvent::ScrollDown);
        }
        let q = UiEventQueue { events, head: 0, tail: 0 };
        proof {
            assert(q.contents() =~= Seq::<UiEvent>::empty());
        }
        q
    }

    /// Number of queued events.
    pub fn len(&self) -> (n: usize)
        requires
            self.wf(),
        ensures
            n == self.contents().len(),
    {
        if self.head <= self.tail {
            self.tail - self.head
        } else {
            UI_QUEUE_SIZE - self.head + self.tail
        }
    }

    /// Appends `event` to the queue; a full queue drops it silently so that
    /// an interrupt-context producer never stalls.
    pub fn push(&mut self, event: UiEvent)
        requires
            old(self).wf(),
        ensures
            final(self).wf(),
            old(self).contents().len() == UI_QUEUE_SIZE - 1 ==> final(self).contents()
                == old(self).contents(),
            old(self).contents().len() < UI_QUEUE_SIZE - 1 ==> final(self).contents()
                == old(self).contents().push(event),
    {
        let next_tail: usize = if self.tail + 1 == UI_QUEUE_SIZE {
            0
        } else {
            self.tail + 1
        };
        if next_tail == self.head {
            // Full: one slot is kept free so a full queue is told apart from
            // an empty one; the event is dropped.
            return ;
        }
        self.events.set(self.tail, event);
        self.tail = next_tail;
        proof {
            assert forall|i: int| 0 <= i < old(self).contents().len() implies self.contents()[i]
                == old(self).contents()[i] by {
                assert(self.slot_of(i) == old(self).slot_of(i));
                assert(old(self).slot_of(i) != old(self).tail);
            }
            assert(self.contents() =~= old(self).contents().push(event));
        }
    }

    /// Removes and returns the oldest queued event, or nothing when the
    /// queue is empty.
    pub fn pop(&mut self) -> (r: Option<UiEvent>)
        requires
            old(self).wf(),
        ensures
            final(self).wf(),
            old(self).contents().len() == 0 ==> r is None
                && final(self).contents() == old(self).contents(),
            old(self).contents().len() > 0 ==> r == Some(old(self).contents()[0])
                && final(self).contents() == old(self).contents().skip(1),
    {
        if self.head == self.tail {
            proof {
                assert(self.contents() =~= old(self).contents());
            }
            return None;
        }
        let event = self.events[self.head];
        self.head = if self.head + 1 == UI_QUEUE_SIZE {
            0
        } else {
            self.head + 1
        };
        proof {
            assert forall|i: int| 0 <= i < self.contents().len() implies self.contents()[i]
                == old(self).contents()[i + 1] by {
                assert(self.slot_of(i) == old(self).slot_of(i + 1));
            }
            assert(self.contents() =~= old(self).contents().skip(1));
        }
        Some(event)
    }
}

/// At most `UI_QUEUE_SIZE - 1` events are ever queued: the number of
/// successful pushes minus the number of successful pops never exceeds the
/// capacity less one, since every reachable queue satisfies `wf` and `push`
/// refuses to grow the content past that bound.
pub proof fn lemma_queue_content_bounded(q: UiEventQueue)
    requires
        q.wf(),
    ensures
        q.contents().len() <= UI_QUEUE_SIZE - 1,
{
}

} // verus!
