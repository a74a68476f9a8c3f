//! The queue of native objects that wait for the device to be done with
//! them before they are destroyed.

use vstd::prelude::*;
use crate::error::RuntimeError;
use crate::timeline::{has_reached, reached};

verus! {

/// The kind of a native object that is destroyed by one call.
#[derive(Clone, Copy, Debug, PartialEq, Eq, Structural)]
pub enum ObjectKind {
    Sampler,
    ShaderModule,
    PipelineLayout,
    GraphicsPipeline,
    ComputePipeline,
    Semaphore,
    CommandPool,
    ImageView,
}

/// What a resource's wrapper owned natively: the object, and with it how it
/// is destroyed.
#[derive(Clone, Copy, Debug, PartialEq, Eq, Structural)]
pub enum NativeObject {
    /// A buffer and the allocation behind it: the allocation is freed, then
    /// the buffer destroyed.
    Buffer { buffer: u64, allocation: u64 },
    /// An image with its view and, where the texture owns one, the
    /// allocation behind it: the view is destroyed, the allocation freed,
    /// then the image destroyed.
    Texture { image: u64, view: u64, own_allocation: Option<u64> },
    /// An object that one destroy call takes.
    Single { object: u64, kind: ObjectKind },
}

/// A native object whose owner is gone, with the timeline point that the
/// device must reach before the object may be destroyed.
#[derive(Clone, Copy, Debug, PartialEq, Eq, Structural)]
pub struct PendingDestruction {
    /// The native object, by the backend's raw handles.
    pub object: NativeObject,
    /// The frame with which the work that may still use the object ends,
    /// or nothing if no such work was ever recorded.
    pub submitted: Option<u64>,
}

/// The entries that a timeline at `completed` allows to be destroyed.
pub open spec fn due(completed: Option<u64>) -> spec_fn(PendingDestruction) -> bool {
    |entry: PendingDestruction| reached(completed, entry.submitted)
}

/// The entries that a timeline at `completed` does not yet allow to be
/// destroyed.
pub open spec fn not_due(completed: Option<u64>) -> spec_fn(PendingDestruction) -> bool {
    |entry: PendingDestruction| !reached(completed, entry.submitted)
}

/// Whether the recorded points of `pending` never go down from one entry to
/// the next.
pub open spec fn in_timeline_order(pending: Seq<PendingDestruction>) -> bool {
    forall|i: int, j: int|
        0 <= i <= j < pending.len() ==> reached(
            #[trigger] pending[j].submitted,
            #[trigger] pending[i].submitted,
        )
}

/// What a drain makes of a queue whose last entry is `entry`: the entry
/// goes with the released entries where the timeline has reached its
/// point, else with the kept ones, behind what the drain makes of the
/// entries before it.
pub proof fn lemma_drain_after_push(
    pending: Seq<PendingDestruction>,
    entry: PendingDestruction,
    completed: Option<u64>,
)
    ensures
        pending.push(entry).filter(due(completed)) == if reached(completed, entry.submitted) {
            pending.filter(due(completed)).push(entry)
        } else {
            pending.filter(due(completed))
        },
        pending.push(entry).filter(not_due(completed)) == if reached(
            completed,
            entry.submitted,
        ) {
            pending.filter(not_due(completed))
        } else {
            pending.filter(not_due(completed)).push(entry)
        },
{
    reveal(Seq::filter);
    assert(pending.push(entry).drop_last() =~= pending);
    assert(pending.push(entry).last() == entry);
}

/// A drain of an empty queue releases nothing and keeps nothing.
pub proof fn lemma_drain_of_nothing(completed: Option<u64>)
    ensures
        Seq::<PendingDestruction>::empty().filter(due(completed)) == Seq::<
            PendingDestruction,
        >::empty(),
        Seq::<PendingDestruction>::empty().filter(not_due(completed)) == Seq::<
            PendingDestruction,
        >::empty(),
{
    reveal(Seq::filter);
}

/// Draining loses nothing and doubles nothing: each entry is either released
/// or kept, so the two parts together are as many as were pending.
pub proof fn lemma_drain_partitions(pending: Seq<PendingDestruction>, completed: Option<u64>)
    ensures
        pending.filter(due(completed)).len() + pending.filter(not_due(completed)).len()
            == pending.len(),
    decreases pending.len(),
{
    reveal(Seq::filter);
    if pending.len() > 0 {
        lemma_drain_partitions(pending.drop_last(), completed);
    }
}

/// An entry queued at a point that the timeline has not reached is not
/// among the released entries of a drain and stays queued; an entry whose
/// point the timeline has reached is released by that drain and does not
/// stay.
pub proof fn lemma_drain_waits_for_timeline(
    pending: Seq<PendingDestruction>,
    index: int,
    completed: Option<u64>,
)
    requires
        0 <= index < pending.len(),
    ensures
        !reached(completed, pending[index].submitted) ==> {
            &&& !pending.filter(due(completed)).contains(pending[index])
            &&& pending.filter(not_due(completed)).contains(pending[index])
        },
        reached(completed, pending[index].submitted) ==> {
            &&& pending.filter(due(completed)).contains(pending[index])
            &&& !pending.filter(not_due(completed)).contains(pending[index])
        },
{
    let entry = pending[index];
    let released = pending.filter(due(completed));
    let kept = pending.filter(not_due(completed));
    if reached(completed, entry.submitted) {
        pending.lemma_filter_contains(due(completed), index);
    } else {
        pending.lemma_filter_contains(not_due(completed), index);
    }
    if released.contains(entry) {
        let at = choose|at: int| 0 <= at < released.len() && released[at] == entry;
        pending.lemma_filter_pred(due(completed), at);
    }
    if kept.contains(entry) {
        let at = choose|at: int| 0 <= at < kept.len() && kept[at] == entry;
        pending.lemma_filter_pred(not_due(completed), at);
    }
}

/// Where the recorded points never go down along the queue, as they do when
/// each entry is queued at the device's timeline of the moment, a drain
/// releases a front part of the queue and keeps the rest: no entry becomes
/// safe before one queued earlier.
pub proof fn lemma_drain_is_first_in_first_out(
    pending: Seq<PendingDestruction>,
    completed: Option<u64>,
)
    requires
        in_timeline_order(pending),
    ensures
        pending.filter(due(completed)) == pending.subrange(
            0,
            pending.filter(due(completed)).len() as int,
        ),
        pending.filter(not_due(completed)) == pending.subrange(
            pending.filter(due(completed)).len() as int,
            pending.len() as int,
        ),
    decreases pending.len(),
{
    reveal(Seq::filter);
    lemma_drain_partitions(pending, completed);
    if pending.len() > 0 {
        let rest = pending.drop_last();
        let last = pending.last();
        assert(in_timeline_order(rest)) by {
            assert forall|i: int, j: int| 0 <= i <= j < rest.len() implies reached(
                #[trigger] rest[j].submitted,
                #[trigger] rest[i].submitted,
            ) by {
                assert(reached(pending[j].submitted, pending[i].submitted));
            }
        }
        lemma_drain_is_first_in_first_out(rest, completed);
        lemma_drain_partitions(rest, completed);
        let front = rest.filter(due(completed)).len() as int;
        if reached(completed, last.submitted) {
            let kept = rest.filter(not_due(completed));
            if kept.len() > 0 {
                rest.lemma_filter_pred(not_due(completed), 0);
                let at = front;
                assert(kept[0] == rest[at]);
                assert(reached(pending[pending.len() - 1].submitted, pending[at].submitted));
            }
            assert(pending.filter(due(completed)) =~= pending);
            assert(pending.filter(not_due(completed)) =~= pending.subrange(
                pending.len() as int,
                pending.len() as int,
            ));
        } else {
            assert(pending.filter(due(completed)) =~= pending.subrange(0, front));
            assert(pending.filter(not_due(completed)) =~= pending.subrange(
                front,
                pending.len() as int,
            ));
        }
    } else {
        assert(pending.filter(due(completed)) =~= pending.subrange(0, 0));
        assert(pending.filter(not_due(completed)) =~= pending.subrange(0, 0));
    }
}

/// An entry queued at the timeline of the moment, behind a queue in timeline
/// order, leaves the queue in timeline order.
pub proof fn lemma_push_keeps_timeline_order(
    pending: Seq<PendingDestruction>,
    entry: PendingDestruction,
)
    requires
        in_timeline_order(pending),
        forall|i: int| 0 <= i < pending.len() ==> reached(entry.submitted, pending[i].submitted),
    ensures
        in_timeline_order(pending.push(entry)),
{
    let pushed = pending.push(entry);
    assert forall|i: int, j: int| 0 <= i <= j < pushed.len() implies reached(
        #[trigger] pushed[j].submitted,
        #[trigger] pushed[i].submitted,
    ) by {
        if j < pending.len() {
            assert(reached(pending[j].submitted, pending[i].submitted));
        } else if i < pending.len() {
            assert(reached(entry.submitted, pending[i].submitted));
        }
    }
}

/// Native objects in the order in which they were queued.
pub struct DestructionQueue {
    pending: Vec<PendingDestruction>,
}

impl View for DestructionQueue {
    type V = Seq<PendingDestruction>;

    closed spec fn view(&self) -> Seq<PendingDestruction> {
        self.pending@
    }
}

impl DestructionQueue {
    /// A queue with nothing pending.
    pub fn new() -> (queue: DestructionQueue)
        ensures
            queue@ == Seq::<PendingDestruction>::empty(),
    {
        DestructionQueue { pending: Vec::new() }
    }

    /// The number of objects that wait.
    pub fn pending_count(&self) -> (count: usize)
        ensures
            count == self@.len(),
    {
        self.pending.len()
    }

    /// Whether nothing waits.
    pub fn is_empty(&self) -> (empty: bool)
        ensures
            empty == (self@.len() == 0),
    {
        self.pending.len() == 0
    }

    /// The entry at `index`, in the order of queueing.
    pub fn get(&self, index: usize) -> (entry: Option<PendingDestruction>)
        ensures
            entry == if index < self@.len() {
                Some(self@[index as int])
            } else {
                None
            },
    {
        if index < self.pending.len() {
            Some(self.pending[index])
        } else {
            None
        }
    }

    /// Queues `object` behind everything queued before. `submitted` is the
    /// device's timeline at this moment: the frame with which the work
    /// that may still use the object ends.
    pub fn push(&mut self, object: NativeObject, submitted: Option<u64>)
        ensures
            final(self)@ == old(self)@.push(PendingDestruction { object, submitted }),
    {
        self.pending.push(PendingDestruction { object, submitted });
    }

    /// Takes out every entry whose recorded point the timeline, now at
    /// `completed`, has reached, and returns them for destruction in the
    /// order in which they were queued. The others stay, in their order.
    pub fn drain(&mut self, completed: Option<u64>) -> (released: Vec<PendingDestruction>)
        ensures
            released@ == old(self)@.filter(due(completed)),
            final(self)@ == old(self)@.filter(not_due(completed)),
    {
        let mut released: Vec<PendingDestruction> = Vec::new();
        let mut kept: Vec<PendingDestruction> = Vec::new();
        let mut i: usize = 0;
        proof {
            reveal(Seq::filter);
            assert(self.pending@.subrange(0, 0) =~= Seq::<PendingDestruction>::empty());
        }
        while i < self.pending.len()
            invariant
                i <= self.pending@.len(),
                self.pending@ == old(self)@,
                released@ == self.pending@.subrange(0, i as int).filter(due(completed)),
                kept@ == self.pending@.subrange(0, i as int).filter(not_due(completed)),
            decreases self.pending@.len() - i,
        {
            let entry = self.pending[i];
            proof {
                reveal(Seq::filter);
                let prefix = self.pending@.subrange(0, i as int + 1);
                assert(prefix.drop_last() =~= self.pending@.subrange(0, i as int));
                assert(prefix.last() == entry);
            }
            if has_reached(completed, entry.submitted) {
                released.push(entry);
            } else {
                kept.push(entry);
            }
            i += 1;
        }
        proof {
            assert(self.pending@.subrange(0, i as int) =~= self.pending@);
        }
        self.pending = kept;
        released
    }

    /// The teardown path. `idle` is what the wait for the device to fall
    /// idle gave: after a wait that succeeded every entry is safe, and all
    /// are returned for destruction, in order; after one that failed with a
    /// native code nothing is released, and the failure is handed on.
    pub fn drain_after_idle(&mut self, idle: Result<(), i32>) -> (result: Result<
        Vec<PendingDestruction>,
        RuntimeError,
    >)
        ensures
            match idle {
                Ok(()) => result matches Ok(released) && released@ == old(self)@ && final(self)@
                    == Seq::<PendingDestruction>::empty(),
                Err(code) => result == Err::<Vec<PendingDestruction>, RuntimeError>(
                    RuntimeError::WaitIdle(code),
                ) && final(self)@ == old(self)@,
            },
    {
        match idle {
            Ok(()) => {
                let mut released: Vec<PendingDestruction> = Vec::new();
                std::mem::swap(&mut released, &mut self.pending);
                Ok(released)
            },
            Err(code) => Err(RuntimeError::WaitIdle(code)),
        }
    }
}

} // verus!
