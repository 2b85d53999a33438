use vstd::prelude::*;

verus! {

/// Worker slots of a conversion pool unless configured otherwise.
pub const DEFAULT_POOL_CAPACITY: usize = 3;

/// What happens to a pool's admission counter.
#[derive(Debug, Clone, Copy, PartialEq, Eq, Structural)]
pub enum SlotEvent {
    /// A frame asks for a slot.
    Submit,
    /// A conversion ends, whether it succeeded or not.
    Complete,
}

/// The counter after one event: a submission takes a slot only while one is free, a
/// completion gives one back and never drives the counter below zero.
pub open spec fn slot_step(active: nat, capacity: nat, e: SlotEvent) -> nat {
    match e {
        SlotEvent::Submit => if active < capacity {
            active + 1
        } else {
            active
        },
        SlotEvent::Complete => if active > 0 {
            (active - 1) as nat
        } else {
            active
        },
    }
}

/// The counter after a sequence of events, starting from an idle pool.
pub open spec fn replay(capacity: nat, events: Seq<SlotEvent>) -> nat
    decreases events.len(),
{
    if events.len() == 0 {
        0
    } else {
        slot_step(replay(capacity, events.drop_last()), capacity, events.last())
    }
}

/// How many submissions of the sequence were accepted.
pub open spec fn accepted(capacity: nat, events: Seq<SlotEvent>) -> nat
    decreases events.len(),
{
    if events.len() == 0 {
        0
    } else {
        let before = accepted(capacity, events.drop_last());
        if events.last() == SlotEvent::Submit && replay(capacity, events.drop_last()) < capacity {
            before + 1
        } else {
            before
        }
    }
}

/// How many completions the sequence holds.
pub open spec fn completed(events: Seq<SlotEvent>) -> nat
    decreases events.len(),
{
    if events.len() == 0 {
        0
    } else if events.last() == SlotEvent::Complete {
        completed(events.drop_last()) + 1
    } else {
        completed(events.drop_last())
    }
}

/// Every completion belongs to a conversion that holds a slot.
pub open spec fn completions_matched(capacity: nat, events: Seq<SlotEvent>) -> bool {
    forall|i: int|
        0 <= i < events.len() && events[i] == SlotEvent::Complete ==> replay(
            capacity,
            #[trigger] events.subrange(0, i),
        ) > 0
}

/// The admission counter never exceeds the pool's capacity, after any sequence of
/// submissions and completions and so at every instant along it.
pub proof fn lemma_admission_bounded(capacity: nat, events: Seq<SlotEvent>)
    ensures
        replay(capacity, events) <= capacity,
    decreases events.len(),
{
    if events.len() > 0 {
        lemma_admission_bounded(capacity, events.drop_last());
    }
}

/// When every completion belongs to an accepted frame, the counter equals the accepted
/// frames minus the finished ones; so it is back at zero once all accepted conversions
/// have completed.
pub proof fn lemma_admission_drains(capacity: nat, events: Seq<SlotEvent>)
    requires
        completions_matched(capacity, events),
    ensures
        replay(capacity, events) + completed(events) == accepted(capacity, events),
        completed(events) == accepted(capacity, events) ==> replay(capacity, events) == 0,
    decreases events.len(),
{
    if events.len() > 0 {
        let prefix = events.drop_last();
        assert forall|i: int|
            0 <= i < prefix.len() && prefix[i] == SlotEvent::Complete implies replay(
                capacity,
                #[trigger] prefix.subrange(0, i),
            ) > 0 by {
            assert(prefix.subrange(0, i) =~= events.subrange(0, i));
            assert(events[i] == prefix[i]);
        }
        lemma_admission_drains(capacity, prefix);
        let last = events.len() - 1;
        if events.last() == SlotEvent::Complete {
            assert(events.subrange(0, last) =~= prefix);
            assert(events[last] == SlotEvent::Complete);
        }
    }
}

/// The counter after a submission, if the frame is admitted: a slot is taken only while
/// one is free. Applied as one atomic update of a shared counter, every change of the
/// counter is a `slot_step`, so the laws above hold of it at every instant.
pub fn reserve_slot(active: usize, capacity: usize) -> (r: Option<usize>)
    ensures
        active < capacity ==> r == Some((active + 1) as usize),
        active >= capacity ==> r is None,
        r is Some ==> r->Some_0 == slot_step(active as nat, capacity as nat, SlotEvent::Submit),
{
    if active < capacity {
        Some(active + 1)
    } else {
        None
    }
}

/// The counter after a conversion ends: one slot given back, never below zero.
pub fn release_slot(active: usize) -> (r: usize)
    ensures
        active > 0 ==> r == active - 1,
        active == 0 ==> r == 0,
        forall|capacity: nat| r == slot_step(active as nat, capacity, SlotEvent::Complete),
{
    if active > 0 {
        active - 1
    } else {
        0
    }
}

/// The admission counter of a fixed-size conversion pool.
#[derive(Debug)]
pub struct ConversionPool {
    active: usize,
    capacity: usize,
}

impl ConversionPool {
    /// The counter stays within the pool's capacity.
    pub closed spec fn wf(&self) -> bool {
        self.active <= self.capacity
    }

    pub closed spec fn spec_active(&self) -> nat {
        self.active as nat
    }

    pub closed spec fn spec_capacity(&self) -> nat {
        self.capacity as nat
    }

    /// An idle pool with `capacity` worker slots.
    pub fn new(capacity: usize) -> (r: ConversionPool)
        ensures
            r.wf(),
            r.spec_active() == 0,
            r.spec_capacity() == capacity,
    {
        ConversionPool { active: 0, capacity }
    }

    /// Conversions currently holding a slot.
    pub fn active(&self) -> (r: usize)
        requires
            self.wf(),
        ensures
            r == self.spec_active(),
            r <= self.spec_capacity(),
    {
        self.active
    }

    /// Worker slots of the pool.
    pub fn capacity(&self) -> (r: usize)
        ensures
            r == self.spec_capacity(),
    {
        self.capacity
    }

    /// Reserves a slot for one frame: accepted only while the counter is strictly below
    /// the capacity, and then the slot is taken before any work is queued.
    pub fn try_acquire(&mut self) -> (accepted: bool)
        requires
            old(self).wf(),
        ensures
            final(self).wf(),
            final(self).spec_active() <= final(self).spec_capacity(),
            accepted == (old(self).spec_active() < old(self).spec_capacity()),
            final(self).spec_capacity() == old(self).spec_capacity(),
            final(self).spec_active() == slot_step(
                old(self).spec_active(),
                old(self).spec_capacity(),
                SlotEvent::Submit,
            ),
    {
        match reserve_slot(self.active, self.capacity) {
            Some(active) => {
                self.active = active;
                true
            },
            None => false,
        }
    }

    /// Gives a slot back when a conversion ends, however it ended.
    pub fn release(&mut self)
        requires
            old(self).wf(),
        ensures
            final(self).wf(),
            final(self).spec_active() <= final(self).spec_capacity(),
            final(self).spec_capacity() == old(self).spec_capacity(),
            final(self).spec_active() == slot_step(
                old(self).spec_active(),
                old(self).spec_capacity(),
                SlotEvent::Complete,
            ),
    {
        self.active = release_slot(self.active);
    }
}

} // verus!
