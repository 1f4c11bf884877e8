//! A bounded queue of input events. When it is full, a new event pushes out
//! the oldest one and a diagnostic counter goes up; pushing never blocks.

use vstd::prelude::*;
use crate::input::InputEvent;

verus! {

pub struct EventQueue {
    pub items: Vec<InputEvent>,
    pub capacity: usize,
    /// Events dropped because the queue was full, saturating at `u64::MAX`.
    pub dropped: u64,
}

impl View for EventQueue {
    type V = Seq<InputEvent>;

    open spec fn view(&self) -> Seq<InputEvent> {
        self.items@
    }
}

/// The events of `q` after pushing `e` into a queue of capacity `cap`.
pub open spec fn after_push(q: Seq<InputEvent>, cap: nat, e: InputEvent) -> Seq<InputEvent> {
    if q.len() < cap {
        q.push(e)
    } else {
        q.subrange(1, q.len() as int).push(e)
    }
}

/// The events of `q` after pushing each event of `es`, in order.
pub open spec fn after_push_all(q: Seq<InputEvent>, cap: nat, es: Seq<InputEvent>) -> Seq<
    InputEvent,
>
    decreases es.len(),
{
    if es.len() == 0 {
        q
    } else {
        after_push(after_push_all(q, cap, es.drop_last()), cap, es.last())
    }
}

impl EventQueue {
    pub open spec fn wf(&self) -> bool {
        0 < self.capacity && self.items@.len() <= self.capacity
    }

    /// An empty queue that holds up to `capacity` events.
    pub fn new(capacity: usize) -> (r: EventQueue)
        requires
            capacity > 0,
        ensures
            r.wf(),
            r@ == Seq::<InputEvent>::empty(),
            r.capacity == capacity,
            r.dropped == 0,
    {
        EventQueue { items: Vec::new(), capacity, dropped: 0 }
    }

    pub fn len(&self) -> (r: usize)
        ensures
            r == self@.len(),
    {
        self.items.len()
    }

    /// Adds `e` at the back; when full, the front event is dropped first.
    pub fn push(&mut self, e: InputEvent)
        requires
            old(self).wf(),
        ensures
            final(self).wf(),
            final(self).capacity == old(self).capacity,
            final(self)@ == after_push(old(self)@, old(self).capacity as nat, e),
            old(self)@.len() < old(self).capacity ==> final(self)@ == old(self)@.push(e)
                && final(self).dropped == old(self).dropped,
            old(self)@.len() == old(self).capacity ==> final(self)@ == old(self)@.subrange(
                1,
                old(self)@.len() as int,
            ).push(e) && final(self).dropped == if old(self).dropped == u64::MAX {
                u64::MAX
            } else {
                (old(self).dropped + 1) as u64
            },
    {
        if self.items.len() < self.capacity {
            self.items.push(e);
        } else {
            self.items.remove(0);
            self.items.push(e);
            self.dropped = self.dropped.saturating_add(1);
            assert(self@ =~= old(self)@.subrange(1, old(self)@.len() as int).push(e));
        }
    }

    /// Pushes every event of `es`, in order.
    pub fn push_all(&mut self, es: &Vec<InputEvent>)
        requires
            old(self).wf(),
        ensures
            final(self).wf(),
            final(self).capacity == old(self).capacity,
            final(self)@ == after_push_all(old(self)@, old(self).capacity as nat, es@),
            final(self).dropped >= old(self).dropped,
            es@.len() <= old(self).capacity - old(self)@.len() ==> final(self)@ == old(self)@
                + es@ && final(self).dropped == old(self).dropped,
    {
        let ghost q0 = self@;
        let ghost d0 = self.dropped;
        let mut i: usize = 0;
        while i < es.len()
            invariant
                self.wf(),
                self.capacity == old(self).capacity,
                i <= es.len(),
                q0 == old(self)@,
                d0 == old(self).dropped,
                self.dropped >= d0,
                self@ == after_push_all(q0, self.capacity as nat, es@.subrange(0, i as int)),
                es@.len() <= self.capacity - q0.len() ==> self@ == q0 + es@.subrange(0, i as int)
                    && self.dropped == d0,
            decreases es.len() - i,
        {
            self.push(es[i]);
            assert(es@.subrange(0, i + 1).drop_last() =~= es@.subrange(0, i as int));
            proof {
                if es@.len() <= self.capacity - q0.len() {
                    assert(q0 + es@.subrange(0, i + 1) =~= (q0 + es@.subrange(0, i as int)).push(
                        es@[i as int],
                    ));
                }
            }
            i = i + 1;
        }
        assert(es@.subrange(0, es@.len() as int) =~= es@);
    }

    /// Takes out every event, oldest first.
    pub fn drain(&mut self) -> (r: Vec<InputEvent>)
        requires
            old(self).wf(),
        ensures
            final(self).wf(),
            r@ == old(self)@,
            final(self)@ == Seq::<InputEvent>::empty(),
            final(self).capacity == old(self).capacity,
            final(self).dropped == old(self).dropped,
    {
        let mut r: Vec<InputEvent> = Vec::new();
        std::mem::swap(&mut r, &mut self.items);
        r
    }
}

} // verus!
