use vstd::prelude::*;

use crate::admission::{slot_step, ConversionPool, SlotEvent};
use crate::error::{Error, Result};
use crate::ids::new_session_id;

verus! {

/// Keep ratio of a stream: one callback in this many is processed, the others are shed
/// before admission is even tried. 1 (or 0) processes every callback.
pub const DEFAULT_KEEP_EVERY: u64 = 1;

/// Delay between stopping a device and releasing it, in milliseconds.
pub const DEFAULT_RELEASE_GRACE_MS: u64 = 500;

/// What becomes of one frame delivered by the capture callback.
#[derive(Debug, Clone, Copy, PartialEq, Eq, Structural)]
pub enum FrameDecision {
    /// The stream has been stopped; the frame gets no sequence id.
    Stopped,
    /// Shed by the fixed keep ratio.
    Skipped(u64),
    /// Every worker slot is taken.
    PoolFull(u64),
    /// A slot was reserved; the frame is to be converted under this sequence id.
    Accepted(u64),
}

/// Per-stream state touched by the capture callback and the conversion workers: the
/// liveness flag, the frame sequence counter and the pool's admission counter.
#[derive(Debug)]
pub struct FrameGate {
    live: bool,
    next_sequence: u64,
    keep_every: u64,
    pool: ConversionPool,
}

/// The sequence id after `id`; the counter wraps as an atomic one does.
pub open spec fn next_id(id: u64) -> u64 {
    if id == u64::MAX {
        0
    } else {
        (id + 1) as u64
    }
}

/// Whether the keep ratio sheds the frame with this sequence id: with a ratio of N
/// above 1, only ids that are multiples of N are processed.
pub open spec fn shed(id: u64, keep_every: u64) -> bool {
    keep_every > 1 && id % keep_every != 0
}

/// Whether the keep ratio sheds the frame with this sequence id.
pub fn shed_frame(id: u64, keep_every: u64) -> (r: bool)
    ensures
        r == shed(id, keep_every),
{
    keep_every > 1 && id % keep_every != 0
}

/// The decision on a frame before admission is tried: a stopped stream drops it, and
/// the keep ratio may shed it; `None` means it goes on to admission.
pub fn screen_frame(live: bool, frame_id: u64, keep_every: u64) -> (r: Option<FrameDecision>)
    ensures
        !live ==> r == Some(FrameDecision::Stopped),
        live && shed(frame_id, keep_every) ==> r == Some(FrameDecision::Skipped(frame_id)),
        live && !shed(frame_id, keep_every) ==> r is None,
{
    if !live {
        Some(FrameDecision::Stopped)
    } else if shed_frame(frame_id, keep_every) {
        Some(FrameDecision::Skipped(frame_id))
    } else {
        None
    }
}

/// The decision on a screened frame once a slot was asked for.
pub fn admission_decision(frame_id: u64, admitted: bool) -> (r: FrameDecision)
    ensures
        admitted ==> r == FrameDecision::Accepted(frame_id),
        !admitted ==> r == FrameDecision::PoolFull(frame_id),
{
    if admitted {
        FrameDecision::Accepted(frame_id)
    } else {
        FrameDecision::PoolFull(frame_id)
    }
}

impl FrameGate {
    pub closed spec fn wf(&self) -> bool {
        self.pool.wf() && self.pool.spec_active() <= self.pool.spec_capacity()
    }

    pub closed spec fn is_live(&self) -> bool {
        self.live
    }

    pub closed spec fn next_seq(&self) -> u64 {
        self.next_sequence
    }

    pub closed spec fn spec_keep_every(&self) -> u64 {
        self.keep_every
    }

    pub closed spec fn in_flight(&self) -> nat {
        self.pool.spec_active()
    }

    pub closed spec fn slots(&self) -> nat {
        self.pool.spec_capacity()
    }

    /// A live stream with no frame seen yet.
    pub fn new(pool_capacity: usize, keep_every: u64) -> (r: FrameGate)
        ensures
            r.wf(),
            r.in_flight() <= r.slots(),
            r.is_live(),
            r.next_seq() == 0,
            r.spec_keep_every() == keep_every,
            r.in_flight() == 0,
            r.slots() == pool_capacity,
    {
        FrameGate { live: true, next_sequence: 0, keep_every, pool: ConversionPool::new(pool_capacity) }
    }

    /// Whether converted frames of this stream may still be delivered.
    pub fn is_running(&self) -> (r: bool)
        ensures
            r == self.is_live(),
    {
        self.live
    }

    /// Conversions of this stream currently holding a slot.
    pub fn active_conversions(&self) -> (r: usize)
        requires
            self.wf(),
        ensures
            r == self.in_flight(),
            r <= self.slots(),
    {
        self.pool.active()
    }

    /// Decides, without blocking, what to do with a frame the capture callback just got.
    /// A stopped stream drops it. Otherwise it takes the next sequence id; then it is
    /// shed by the keep ratio, refused when the pool is full, or accepted with a slot
    /// reserved.
    pub fn on_frame(&mut self) -> (r: FrameDecision)
        requires
            old(self).wf(),
        ensures
            final(self).wf(),
            final(self).in_flight() <= final(self).slots(),
            final(self).is_live() == old(self).is_live(),
            final(self).spec_keep_every() == old(self).spec_keep_every(),
            final(self).slots() == old(self).slots(),
            !old(self).is_live() ==> r == FrameDecision::Stopped && final(self).next_seq() == old(self).next_seq() && final(self).in_flight() == old(self).in_flight(),
            old(self).is_live() ==> final(self).next_seq() == next_id(old(self).next_seq()),
            old(self).is_live() && shed(old(self).next_seq(), old(self).spec_keep_every()) ==> r
                == FrameDecision::Skipped(old(self).next_seq()) && final(self).in_flight() == old(self).in_flight(),
            old(self).is_live() && !shed(old(self).next_seq(), old(self).spec_keep_every()) ==> {
                &&& final(self).in_flight() == slot_step(
                    old(self).in_flight(),
                    old(self).slots(),
                    SlotEvent::Submit,
                )
                &&& old(self).in_flight() < old(self).slots() ==> r == FrameDecision::Accepted(
                    old(self).next_seq(),
                )
                &&& old(self).in_flight() >= old(self).slots() ==> r == FrameDecision::PoolFull(
                    old(self).next_seq(),
                )
            },
    {
        if !self.live {
            return FrameDecision::Stopped;
        }
        let id = self.next_sequence;
        self.next_sequence = if id == u64::MAX {
            0
        } else {
            id + 1
        };
        if let Some(decision) = screen_frame(true, id, self.keep_every) {
            return decision;
        }
        let admitted = self.pool.try_acquire();
        admission_decision(id, admitted)
    }

    /// Ends one conversion, however it went: its slot is given back unconditionally.
    /// The result says whether its frame may be delivered, which only a live stream allows.
    pub fn finish_conversion(&mut self) -> (deliver: bool)
        requires
            old(self).wf(),
        ensures
            final(self).wf(),
            final(self).in_flight() <= final(self).slots(),
            deliver == old(self).is_live(),
            final(self).is_live() == old(self).is_live(),
            final(self).next_seq() == old(self).next_seq(),
            final(self).spec_keep_every() == old(self).spec_keep_every(),
            final(self).slots() == old(self).slots(),
            final(self).in_flight() == slot_step(
                old(self).in_flight(),
                old(self).slots(),
                SlotEvent::Complete,
            ),
    {
        self.pool.release();
        self.live
    }

    /// Clears the liveness flag; frames still in flight will be dropped at delivery.
    pub fn stop(&mut self)
        requires
            old(self).wf(),
        ensures
            final(self).wf(),
            final(self).in_flight() <= final(self).slots(),
            !final(self).is_live(),
            final(self).next_seq() == old(self).next_seq(),
            final(self).spec_keep_every() == old(self).spec_keep_every(),
            final(self).slots() == old(self).slots(),
            final(self).in_flight() == old(self).in_flight(),
    {
        self.live = false;
    }
}

/// One active stream: the session id it was given, its device and when it started.
#[derive(Debug, Clone, PartialEq, Eq)]
pub struct StreamEntry {
    pub session_id: String,
    pub device_id: String,
    pub started_at_ms: u64,
}

/// One step of stopping a stream, in the order a [`TeardownPlan`] lists them.
#[derive(Debug, Clone, Copy, PartialEq, Eq, Structural)]
pub enum TeardownStep {
    /// Clear the stream's liveness flag.
    MarkStopped,
    /// Replace the capture callback by one that does nothing.
    ClearCallback,
    /// Ask the capture provider to stop the device.
    StopDevice,
    /// Wait this many milliseconds.
    WaitGrace(u64),
    /// Ask the capture provider to release the device.
    ReleaseDevice,
}

/// The steps that stop a stream, already removed from the registry.
#[derive(Debug, Clone, PartialEq, Eq)]
pub struct TeardownPlan {
    pub session_id: String,
    pub device_id: String,
    pub steps: Vec<TeardownStep>,
}

/// The strict order of teardown: quiesce the producer before the hardware is let go.
pub open spec fn teardown_order(grace_ms: u64) -> Seq<TeardownStep> {
    seq![
        TeardownStep::MarkStopped,
        TeardownStep::ClearCallback,
        TeardownStep::StopDevice,
        TeardownStep::WaitGrace(grace_ms),
        TeardownStep::ReleaseDevice,
    ]
}

/// Position of the first failed step of a best-effort teardown, where every step was
/// tried whatever the others did; `None` when all of them succeeded.
pub fn first_failure(outcomes: &Vec<Result<()>>) -> (r: Option<usize>)
    ensures
        r is None <==> forall|i: int| 0 <= i < outcomes@.len() ==> (#[trigger] outcomes@[i]) is Ok,
        r is Some ==> r->Some_0 < outcomes@.len() && outcomes@[r->Some_0 as int] is Err && forall|
            j: int,
        | 0 <= j < r->Some_0 ==> (#[trigger] outcomes@[j]) is Ok,
{
    let mut i: usize = 0;
    while i < outcomes.len()
        invariant
            i <= outcomes@.len(),
            forall|j: int| 0 <= j < i ==> (#[trigger] outcomes@[j]) is Ok,
        decreases outcomes@.len() - i,
    {
        if outcomes[i].is_err() {
            return Some(i);
        }
        i += 1;
    }
    None
}

/// Whether a stream with this session id is registered.
pub open spec fn has_session(entries: Seq<StreamEntry>, session_id: Seq<char>) -> bool {
    exists|i: int| 0 <= i < entries.len() && (#[trigger] entries[i]).session_id@ == session_id
}

/// Whether a stream on this device is registered.
pub open spec fn device_active(entries: Seq<StreamEntry>, device_id: Seq<char>) -> bool {
    exists|i: int| 0 <= i < entries.len() && (#[trigger] entries[i]).device_id@ == device_id
}

/// Session ids are unique, and at most one stream runs per device.
pub open spec fn registry_wf(entries: Seq<StreamEntry>) -> bool {
    forall|i: int, j: int|
        0 <= i < entries.len() && 0 <= j < entries.len() && i != j ==> (#[trigger] entries[i]).session_id@
            != (#[trigger] entries[j]).session_id@ && entries[i].device_id@ != entries[j].device_id@
}

/// The table of active streams, one entry per session.
#[derive(Debug)]
pub struct StreamRegistry {
    entries: Vec<StreamEntry>,
    grace_ms: u64,
}

impl View for StreamRegistry {
    type V = Seq<StreamEntry>;

    closed spec fn view(&self) -> Seq<StreamEntry> {
        self.entries@
    }
}

impl StreamRegistry {
    pub closed spec fn spec_grace_ms(&self) -> u64 {
        self.grace_ms
    }

    /// An empty registry whose teardowns wait `grace_ms` before releasing a device.
    pub fn new(grace_ms: u64) -> (r: StreamRegistry)
        ensures
            r@ == Seq::<StreamEntry>::empty(),
            r.spec_grace_ms() == grace_ms,
    {
        StreamRegistry { entries: Vec::new(), grace_ms }
    }

    /// Number of active streams.
    pub fn len(&self) -> (r: usize)
        ensures
            r == self@.len(),
    {
        self.entries.len()
    }

    /// Position of the stream with this session id.
    fn position_of_session(&self, session_id: &String) -> (r: Option<usize>)
        ensures
            r is None ==> !has_session(self@, session_id@),
            r is Some ==> r->Some_0 < self@.len() && self@[r->Some_0 as int].session_id@
                == session_id@,
    {
        let mut i: usize = 0;
        while i < self.entries.len()
            invariant
                i <= self.entries@.len(),
                forall|k: int| 0 <= k < i ==> (#[trigger] self.entries@[k]).session_id@ != session_id@,
            decreases self.entries@.len() - i,
        {
            if self.entries[i].session_id == *session_id {
                return Some(i);
            }
            i += 1;
        }
        None
    }

    /// Whether a stream runs on this device.
    pub fn is_device_active(&self, device_id: &String) -> (r: bool)
        ensures
            r == device_active(self@, device_id@),
    {
        let mut i: usize = 0;
        while i < self.entries.len()
            invariant
                i <= self.entries@.len(),
                forall|k: int| 0 <= k < i ==> (#[trigger] self.entries@[k]).device_id@ != device_id@,
            decreases self.entries@.len() - i,
        {
            if self.entries[i].device_id == *device_id {
                return true;
            }
            i += 1;
        }
        false
    }

    /// Whether a stream has this session id.
    pub fn contains_session(&self, session_id: &String) -> (r: bool)
        ensures
            r == has_session(self@, session_id@),
    {
        self.position_of_session(session_id).is_some()
    }

    /// The device streamed under this session id.
    pub fn device_of(&self, session_id: &String) -> (r: Option<String>)
        requires
            registry_wf(self@),
        ensures
            r is None <==> !has_session(self@, session_id@),
            r is Some ==> exists|i: int|
                0 <= i < self@.len() && self@[i].session_id@ == session_id@ && r->Some_0
                    == #[trigger] self@[i].device_id,
    {
        match self.position_of_session(session_id) {
            Some(i) => Some(self.entries[i].device_id.clone()),
            None => None,
        }
    }

    /// Registers a stream of `device_id` under `session_id`. A device that already
    /// streams is refused, and so is a session id already in use; neither changes the
    /// registry.
    pub fn start(&mut self, device_id: String, session_id: String, started_at_ms: u64) -> (r:
        Result<()>)
        requires
            registry_wf(old(self)@),
        ensures
            registry_wf(final(self)@),
            final(self).spec_grace_ms() == old(self).spec_grace_ms(),
            device_active(old(self)@, device_id@) ==> r == Err::<(), Error>(
                Error::StreamingAlreadyActive(device_id),
            ) && final(self)@ == old(self)@,
            !device_active(old(self)@, device_id@) && has_session(old(self)@, session_id@) ==> r
                == Err::<(), Error>(Error::IdInUse(session_id)) && final(self)@ == old(self)@,
            !device_active(old(self)@, device_id@) && !has_session(old(self)@, session_id@) ==> r
                is Ok && final(self)@ == old(self)@.push(
                StreamEntry { session_id, device_id, started_at_ms },
            ),
            r is Ok ==> device_active(final(self)@, device_id@) && has_session(
                final(self)@,
                session_id@,
            ),
    {
        if self.is_device_active(&device_id) {
            return Err(Error::StreamingAlreadyActive(device_id));
        }
        if self.contains_session(&session_id) {
            return Err(Error::IdInUse(session_id));
        }
        let entry = StreamEntry { session_id, device_id, started_at_ms };
        self.entries.push(entry);
        proof {
            let es = self.entries@;
            let n = es.len() - 1;
            assert(es[n] == entry);
            assert forall|i: int, j: int|
                0 <= i < es.len() && 0 <= j < es.len() && i != j implies (#[trigger] es[i]).session_id@
                    != (#[trigger] es[j]).session_id@ && es[i].device_id@ != es[j].device_id@ by {
                if i == n {
                    assert(old(self)@[j] == es[j]);
                } else if j == n {
                    assert(old(self)@[i] == es[i]);
                } else {
                    assert(old(self)@[i] == es[i]);
                    assert(old(self)@[j] == es[j]);
                }
            }
        }
        Ok(())
    }

    /// Registers a stream of `device_id` under a freshly generated session id, which is
    /// returned. A device that already streams is refused.
    pub fn start_stream(&mut self, device_id: String, started_at_ms: u64) -> (r: Result<String>)
        requires
            registry_wf(old(self)@),
        ensures
            registry_wf(final(self)@),
            final(self).spec_grace_ms() == old(self).spec_grace_ms(),
            device_active(old(self)@, device_id@) ==> r == Err::<String, Error>(
                Error::StreamingAlreadyActive(device_id),
            ),
            r is Err ==> final(self)@ == old(self)@,
            !device_active(old(self)@, device_id@) && r is Err ==> (r matches Err(
                Error::IdInUse(_),
            )),
            r is Ok ==> !device_active(old(self)@, device_id@) && !has_session(
                old(self)@,
                r->Ok_0@,
            ) && final(self)@ == old(self)@.push(
                StreamEntry { session_id: r->Ok_0, device_id, started_at_ms },
            ),
            r is Ok ==> device_active(final(self)@, device_id@) && has_session(
                final(self)@,
                r->Ok_0@,
            ),
    {
        let session_id = new_session_id();
        let kept = session_id.clone();
        match self.start(device_id, session_id, started_at_ms) {
            Ok(()) => Ok(kept),
            Err(e) => Err(e),
        }
    }

    /// Removes the stream with this session id and hands back the steps that stop it,
    /// in strict order. The entry is gone before any step runs, so a second stop of the
    /// same id finds nothing.
    pub fn stop(&mut self, session_id: &String) -> (r: Result<TeardownPlan>)
        requires
            registry_wf(old(self)@),
        ensures
            registry_wf(final(self)@),
            final(self).spec_grace_ms() == old(self).spec_grace_ms(),
            !has_session(old(self)@, session_id@) ==> r == Err::<TeardownPlan, Error>(
                Error::NoActiveStream(*session_id),
            ) && final(self)@ == old(self)@,
            has_session(old(self)@, session_id@) ==> r is Ok,
            r is Ok ==> exists|i: int|
                0 <= i < old(self)@.len() && (#[trigger] old(self)@[i]).session_id@ == session_id@
                    && final(self)@ == old(self)@.remove(i) && r->Ok_0.device_id == old(self)@[i].device_id && r->Ok_0.session_id == old(self)@[i].session_id,
            r is Ok ==> r->Ok_0.steps@ == teardown_order(old(self).spec_grace_ms()),
            r is Ok ==> !has_session(final(self)@, session_id@),
    {
        match self.position_of_session(session_id) {
            None => Err(Error::NoActiveStream(session_id.clone())),
            Some(i) => {
                let ghost before = self.entries@;
                let entry = self.entries.remove(i);
                proof {
                    let es = self.entries@;
                    assert forall|a: int, b: int|
                        0 <= a < es.len() && 0 <= b < es.len() && a != b implies (#[trigger] es[a]).session_id@
                            != (#[trigger] es[b]).session_id@ && es[a].device_id@ != es[b].device_id@ by {
                        let a0 = if a < i { a } else { a + 1 };
                        let b0 = if b < i { b } else { b + 1 };
                        assert(es[a] == before[a0]);
                        assert(es[b] == before[b0]);
                    }
                    assert forall|k: int| 0 <= k < es.len() implies (#[trigger] es[k]).session_id@
                        != session_id@ by {
                        let k0 = if k < i { k } else { k + 1 };
                        assert(es[k] == before[k0]);
                        assert(before[k0].session_id@ != before[i as int].session_id@);
                    }
                }
                let steps = vec![
                    TeardownStep::MarkStopped,
                    TeardownStep::ClearCallback,
                    TeardownStep::StopDevice,
                    TeardownStep::WaitGrace(self.grace_ms),
                    TeardownStep::ReleaseDevice,
                ];
                assert(steps@ =~= teardown_order(self.grace_ms));
                Ok(TeardownPlan { session_id: entry.session_id, device_id: entry.device_id, steps })
            },
        }
    }
}

/// The device a stream starts on when none is named: the first one listed.
pub fn pick_default_device(devices: &Vec<String>) -> (r: Result<String>)
    ensures
        devices@.len() == 0 ==> (r matches Err(Error::DeviceNotFound(d)) && d@.len() == 0),
        devices@.len() > 0 ==> r is Ok && r->Ok_0 == devices@[0],
{
    if devices.len() == 0 {
        Err(Error::DeviceNotFound(String::new()))
    } else {
        Ok(devices[0].clone())
    }
}

/// Starting a second stream on a device that already streams is refused and leaves no
/// entry: after a first stream starts, the device counts as active (so `start` answers
/// `StreamingAlreadyActive` and changes nothing), while the id offered for the second
/// attempt is still unknown (so `stop` on it answers `NoActiveStream`).
pub proof fn lemma_second_start_refused(
    entries: Seq<StreamEntry>,
    first: StreamEntry,
    second_id: Seq<char>,
)
    requires
        registry_wf(entries),
        !device_active(entries, first.device_id@),
        !has_session(entries, first.session_id@),
        !has_session(entries, second_id),
        second_id != first.session_id@,
    ensures
        registry_wf(entries.push(first)),
        device_active(entries.push(first), first.device_id@),
        !has_session(entries.push(first), second_id),
{
    let after = entries.push(first);
    let n = entries.len() as int;
    assert(after[n] == first);
    assert forall|i: int, j: int|
        0 <= i < after.len() && 0 <= j < after.len() && i != j implies (#[trigger] after[i]).session_id@
            != (#[trigger] after[j]).session_id@ && after[i].device_id@ != after[j].device_id@ by {
        if i == n {
            assert(after[j] == entries[j]);
        } else if j == n {
            assert(after[i] == entries[i]);
        } else {
            assert(after[i] == entries[i]);
            assert(after[j] == entries[j]);
        }
    }
    assert forall|k: int| 0 <= k < after.len() implies (#[trigger] after[k]).session_id@ != second_id by {
        if k < n {
            assert(after[k] == entries[k]);
        }
    }
}

} // verus!
