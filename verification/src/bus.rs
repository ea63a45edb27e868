//! The event bus: the single delivery queue carrying domain events to the
//! orchestration thread, first in, first out.
//!
//! Producers append at the back, the one consumer takes from the front, so
//! each producer's events are delivered in the order it posted them; no
//! order is promised across producers beyond the order the queue received
//! them in.

use vstd::prelude::*;
use std::collections::VecDeque;
use crate::engine::{EventView, WizardEvent};

verus! {

/// The delivery queue, viewed as the sequence of pending events, oldest
/// first.
pub struct EventBus {
    queue: VecDeque<WizardEvent>,
}

impl View for EventBus {
    type V = Seq<EventView>;

    closed spec fn view(&self) -> Seq<EventView> {
        self.queue.deep_view()
    }
}

impl EventBus {
    /// An empty bus: nothing pending.
    pub fn new() -> (b: Self)
        ensures
            b@ == Seq::<EventView>::empty(),
    {
        let queue: VecDeque<WizardEvent> = VecDeque::new();
        proof {
            assert(queue.deep_view() =~= Seq::<EventView>::empty());
        }
        EventBus { queue }
    }

    /// Whether nothing is pending.
    pub fn is_empty(&self) -> (r: bool)
        ensures
            r == (self@.len() == 0),
    {
        self.queue.len() == 0
    }

    /// How many events are pending.
    pub fn pending(&self) -> (n: usize)
        ensures
            n == self@.len(),
    {
        self.queue.len()
    }

    /// Posts an event: it joins the back of the queue and everything
    /// already pending stays ahead of it.
    pub fn post(&mut self, event: WizardEvent)
        ensures
            final(self)@ == old(self)@.push(event@),
    {
        let ghost before = self.queue.deep_view();
        let ghost posted = event@;
        self.queue.push_back(event);
        proof {
            assert(self.queue.deep_view() =~= before.push(posted));
        }
    }

    /// Takes the oldest pending event, or nothing when the queue is empty;
    /// the rest keep their order.
    pub fn next_event(&mut self) -> (r: Option<WizardEvent>)
        ensures
            old(self)@.len() == 0 ==> r is None && final(self)@ == old(self)@,
            old(self)@.len() > 0 ==> {
                &&& r matches Some(event) && event@ == old(self)@[0]
                &&& final(self)@ == old(self)@.skip(1)
            },
    {
        let ghost before = self.queue.deep_view();
        let r = self.queue.pop_front();
        proof {
            if before.len() > 0 {
                assert(self.queue.deep_view() =~= before.skip(1));
            }
        }
        r
    }
}

} // verus!
