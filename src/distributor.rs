use vstd::prelude::*;

use crate::models::FrameEvent;

verus! {

/// Whether a frame with sequence id `id` comes after the last one a consumer got.
pub open spec fn newer(id: u64, last: Option<u64>) -> bool {
    last is None || id > last->Some_0
}

/// Two frames with the same id, pixels, size, time and format.
pub open spec fn same_frame(a: FrameEvent, b: FrameEvent) -> bool {
    &&& a.frame_id == b.frame_id
    &&& a.data@ == b.data@
    &&& a.width == b.width
    &&& a.height == b.height
    &&& a.timestamp_ms == b.timestamp_ms
    &&& a.format@ == b.format@
}

impl FrameEvent {
    /// A copy of the frame, field by field.
    pub fn duplicate(&self) -> (r: FrameEvent)
        ensures
            same_frame(r, *self),
    {
        let data = self.data.clone();
        assert(data@ =~= self.data@);
        FrameEvent {
            frame_id: self.frame_id,
            data,
            width: self.width,
            height: self.height,
            timestamp_ms: self.timestamp_ms,
            format: self.format.clone(),
        }
    }
}

/// Keeps deliveries to one consumer in increasing sequence order. Conversions finish
/// in any order on a pool of workers; a frame older than the last one delivered is
/// refused rather than delivered out of order.
#[derive(Debug)]
pub struct OrderGate {
    last: Option<u64>,
}

impl OrderGate {
    pub closed spec fn last_delivered(&self) -> Option<u64> {
        self.last
    }

    /// A gate that has delivered nothing yet.
    pub fn new() -> (r: OrderGate)
        ensures
            r.last_delivered() is None,
    {
        OrderGate { last: None }
    }

    /// Admits the frame with this sequence id if it is newer than every frame delivered
    /// so far, and then remembers it.
    pub fn accept(&mut self, frame_id: u64) -> (r: bool)
        ensures
            r == newer(frame_id, old(self).last_delivered()),
            r ==> final(self).last_delivered() == Some(frame_id),
            !r ==> final(self).last_delivered() == old(self).last_delivered(),
    {
        let fresh = match self.last {
            None => true,
            Some(last) => frame_id > last,
        };
        if fresh {
            self.last = Some(frame_id);
        }
        fresh
    }
}

/// A single-slot holder of the most recent converted frame: each publication overwrites
/// it, nothing is queued, and an older frame never replaces a newer one.
#[derive(Debug)]
pub struct LatestSlot {
    frame: Option<FrameEvent>,
}

/// The id a slot holds after a frame with id `id` is offered to it.
pub open spec fn slot_after_publish(slot: Option<u64>, id: u64) -> Option<u64> {
    if newer(id, slot) {
        Some(id)
    } else {
        slot
    }
}

impl LatestSlot {
    pub closed spec fn held(&self) -> Option<FrameEvent> {
        self.frame
    }

    /// The sequence id of the frame held, if any.
    pub open spec fn held_id(&self) -> Option<u64> {
        match self.held() {
            Some(f) => Some(f.frame_id),
            None => None,
        }
    }

    /// An empty slot.
    pub fn new() -> (r: LatestSlot)
        ensures
            r.held() is None,
    {
        LatestSlot { frame: None }
    }

    /// Offers a converted frame; it replaces the held one unless that one is at least as
    /// recent. The result says whether it was stored.
    pub fn publish(&mut self, frame: FrameEvent) -> (stored: bool)
        ensures
            stored == newer(frame.frame_id, old(self).held_id()),
            stored ==> final(self).held() == Some(frame),
            !stored ==> final(self).held() == old(self).held(),
            final(self).held_id() == slot_after_publish(old(self).held_id(), frame.frame_id),
    {
        let fresh = match &self.frame {
            None => true,
            Some(current) => frame.frame_id > current.frame_id,
        };
        if fresh {
            self.frame = Some(frame);
        }
        fresh
    }

    /// The sequence id of the frame held, if any.
    pub fn latest_id(&self) -> (r: Option<u64>)
        ensures
            r == self.held_id(),
    {
        match &self.frame {
            Some(f) => Some(f.frame_id),
            None => None,
        }
    }
}

/// A consumer of a [`LatestSlot`]: it remembers the last id it processed, so it only
/// ever sees a frame once and always the most recent one.
#[derive(Debug)]
pub struct LatestReader {
    seen: Option<u64>,
}

impl LatestReader {
    pub closed spec fn last_seen(&self) -> Option<u64> {
        self.seen
    }

    /// A reader that has seen nothing.
    pub fn new() -> (r: LatestReader)
        ensures
            r.last_seen() is None,
    {
        LatestReader { seen: None }
    }

    /// Takes the slot's frame if it is newer than the last one this reader saw.
    pub fn poll(&mut self, slot: &LatestSlot) -> (r: Option<FrameEvent>)
        ensures
            slot.held_id() is Some && newer(slot.held_id()->Some_0, old(self).last_seen()) ==> r
                is Some && same_frame(r->Some_0, slot.held()->Some_0) && final(self).last_seen()
                == slot.held_id(),
            !(slot.held_id() is Some && newer(slot.held_id()->Some_0, old(self).last_seen()))
                ==> r is None && final(self).last_seen() == old(self).last_seen(),
    {
        match &slot.frame {
            Some(f) => {
                let fresh = match self.seen {
                    None => true,
                    Some(seen) => f.frame_id > seen,
                };
                if fresh {
                    self.seen = Some(f.frame_id);
                    Some(f.duplicate())
                } else {
                    None
                }
            },
            None => None,
        }
    }
}

/// One step of a producer and a consumer sharing a latest-value slot.
#[derive(Debug, Clone, Copy, PartialEq, Eq, Structural)]
pub enum DistEvent {
    /// The producer publishes the frame with this sequence id.
    Publish(u64),
    /// The consumer polls the slot.
    Poll,
}

/// Slot id, last id seen by the consumer, and the ids it observed, after the events.
pub open spec fn dist_replay(events: Seq<DistEvent>) -> (Option<u64>, Option<u64>, Seq<u64>)
    decreases events.len(),
{
    if events.len() == 0 {
        (None, None, Seq::empty())
    } else {
        let (slot, seen, observed) = dist_replay(events.drop_last());
        match events.last() {
            DistEvent::Publish(id) => (slot_after_publish(slot, id), seen, observed),
            DistEvent::Poll => if slot is Some && newer(slot->Some_0, seen) {
                (slot, slot, observed.push(slot->Some_0))
            } else {
                (slot, seen, observed)
            },
        }
    }
}

pub open spec fn strictly_increasing(s: Seq<u64>) -> bool {
    forall|i: int, j: int| 0 <= i < j < s.len() ==> s[i] < s[j]
}

pub open spec fn published(events: Seq<DistEvent>, id: u64) -> bool {
    exists|i: int| 0 <= i < events.len() && events[i] == DistEvent::Publish(id)
}

spec fn dist_inv(events: Seq<DistEvent>) -> bool {
    let (slot, seen, observed) = dist_replay(events);
    &&& (observed.len() == 0 <==> seen is None)
    &&& observed.len() > 0 ==> seen == Some(observed.last())
    &&& strictly_increasing(observed)
    &&& seen is Some ==> slot is Some && seen->Some_0 <= slot->Some_0
    &&& slot is Some ==> published(events, slot->Some_0)
    &&& forall|k: int| 0 <= k < observed.len() ==> published(events, #[trigger] observed[k])
    &&& forall|i: int|
        0 <= i < events.len() && (#[trigger] events[i]) is Publish ==> slot is Some
            && events[i]->Publish_0 <= slot->Some_0
}

proof fn lemma_published_extends(events: Seq<DistEvent>, id: u64)
    requires
        events.len() > 0,
        published(events.drop_last(), id),
    ensures
        published(events, id),
{
    let prefix = events.drop_last();
    let i = choose|i: int| 0 <= i < prefix.len() && prefix[i] == DistEvent::Publish(id);
    assert(events[i] == prefix[i]);
}

proof fn lemma_dist_inv(events: Seq<DistEvent>)
    ensures
        dist_inv(events),
    decreases events.len(),
{
    if events.len() > 0 {
        let prefix = events.drop_last();
        lemma_dist_inv(prefix);
        let (slot0, seen0, obs0) = dist_replay(prefix);
        let (slot, seen, obs) = dist_replay(events);
        let n = events.len() - 1;
        assert forall|k: int| 0 <= k < obs0.len() implies published(events, #[trigger] obs0[k]) by {
            lemma_published_extends(events, obs0[k]);
        }
        if slot0 is Some {
            lemma_published_extends(events, slot0->Some_0);
        }
        match events.last() {
            DistEvent::Publish(id) => {
                assert(events[n] == DistEvent::Publish(id));
                assert forall|i: int|
                    0 <= i < events.len() && (#[trigger] events[i]) is Publish implies slot is Some
                        && events[i]->Publish_0 <= slot->Some_0 by {
                    if i < n {
                        assert(events[i] == prefix[i]);
                    }
                }
            },
            DistEvent::Poll => {
                assert forall|i: int|
                    0 <= i < events.len() && (#[trigger] events[i]) is Publish implies slot is Some
                        && events[i]->Publish_0 <= slot->Some_0 by {
                    if i < n {
                        assert(events[i] == prefix[i]);
                    }
                }
                if slot0 is Some && newer(slot0->Some_0, seen0) {
                    assert forall|k: int| 0 <= k < obs.len() implies published(
                        events,
                        #[trigger] obs[k],
                    ) by {
                        if k < obs0.len() {
                            assert(obs[k] == obs0[k]);
                        }
                    }
                }
            },
        }
    }
}

/// Latest-value delivery: whatever the interleaving of publications and polls, the
/// consumer observes a strictly increasing (possibly sparse) run of published sequence
/// ids; the slot holds the greatest id published; and a poll after the last publication
/// ends the run at that greatest id.
pub proof fn lemma_latest_value_delivery(events: Seq<DistEvent>)
    ensures
        strictly_increasing(dist_replay(events).2),
        forall|k: int|
            0 <= k < dist_replay(events).2.len() ==> published(
                events,
                #[trigger] dist_replay(events).2[k],
            ),
        forall|i: int|
            0 <= i < events.len() && (#[trigger] events[i]) is Publish ==> dist_replay(events).0 is Some
                && events[i]->Publish_0 <= dist_replay(events).0->Some_0,
        events.len() > 0 && events.last() == DistEvent::Poll && dist_replay(events).0 is Some
            ==> dist_replay(events).2.len() > 0 && dist_replay(events).2.last() == dist_replay(
            events,
        ).0->Some_0,
{
    lemma_dist_inv(events);
    if events.len() > 0 && events.last() == DistEvent::Poll {
        lemma_dist_inv(events.drop_last());
    }
}

} // verus!
