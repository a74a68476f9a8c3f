//! The table of resource slots that shaders address by index: a fixed
//! number of slots, each named by a generational handle.

use vstd::prelude::*;
use crate::handle::{next_version16, slot_of32, version_of32, Handle32, ResourceHandle};
use crate::handle_pool::{HandleError, HandlePool, MAX_SLOTS};

verus! {

/// The capacity of a table that is addressed bindlessly: as many slots as
/// the slot half of a handle can count.
pub const BINDLESS_CAPACITY: usize = 0x1_0000;

/// What a slot binds.
#[derive(Clone, Copy, Debug, PartialEq, Eq, Structural)]
pub enum ResourceKind {
    Buffer,
    Texture,
    Sampler,
    CombinedImageSampler,
}

/// The binding that a slot holds: the kind of the resource and the
/// backend's reference to it.
#[derive(Clone, Copy, Debug, PartialEq, Eq, Structural)]
pub struct Descriptor {
    pub kind: ResourceKind,
    pub reference: u64,
}

/// One write into the backend-visible heap: the slot and what it binds from
/// now on.
#[derive(Clone, Copy, Debug, PartialEq, Eq, Structural)]
pub struct HeapWrite {
    pub slot: u16,
    pub descriptor: Descriptor,
}

/// Why the table refused.
#[derive(Clone, Copy, Debug, PartialEq, Eq, Structural)]
pub enum TableError {
    /// The capacity asked for is no power of two that a handle's slot half
    /// can count.
    InvalidCapacity,
    /// Every slot is taken.
    Exhausted,
    /// The handle's slot lies beyond the capacity.
    OutOfRange,
    /// The handle was freed: its version is not the slot's current one.
    Stale,
}

/// A slot as the table's users see it.
pub struct SlotView {
    /// The version that a valid handle for the slot carries.
    pub version: u16,
    /// What the slot binds; nothing while it is free.
    pub descriptor: Option<Descriptor>,
}

/// Whether a table may have `capacity` slots: a power of two, at most what
/// the slot half of a handle can count.
pub open spec fn valid_capacity(capacity: int) -> bool {
    exists|exponent: nat| exponent <= 16 && capacity == vstd::arithmetic::power2::pow2(exponent)
}

/// Whether `slot` is free and every slot below it is taken.
pub open spec fn is_lowest_free(slots: Seq<SlotView>, slot: int) -> bool {
    &&& 0 <= slot < slots.len()
    &&& slots[slot].descriptor is None
    &&& forall|below: int| 0 <= below < slot ==> (#[trigger] slots[below]).descriptor is Some
}

/// Whether every slot is taken.
pub open spec fn is_full(slots: Seq<SlotView>) -> bool {
    forall|slot: int| 0 <= slot < slots.len() ==> (#[trigger] slots[slot]).descriptor is Some
}

/// Whether `word` names a taken slot of `slots` at the slot's current
/// version.
pub open spec fn names_live_slot(slots: Seq<SlotView>, word: u32) -> bool {
    let slot = slot_of32(word) as int;
    &&& slot < slots.len()
    &&& slots[slot].descriptor is Some
    &&& slots[slot].version == version_of32(word)
}

/// The error that a handle which names no live slot is answered with.
pub open spec fn refusal(slots: Seq<SlotView>, word: u32) -> TableError {
    if slot_of32(word) >= slots.len() {
        TableError::OutOfRange
    } else {
        TableError::Stale
    }
}

/// The slots after `slot` was taken for `descriptor`.
pub open spec fn after_allocate_at(slots: Seq<SlotView>, slot: int, descriptor: Descriptor) -> Seq<
    SlotView,
> {
    slots.update(
        slot,
        SlotView { version: next_version16(slots[slot].version), descriptor: Some(descriptor) },
    )
}

/// The slots after an allocation: the lowest free slot taken, or, in a full
/// table, nothing changed.
pub open spec fn after_allocate(slots: Seq<SlotView>, descriptor: Descriptor) -> Seq<SlotView> {
    if is_full(slots) {
        slots
    } else {
        after_allocate_at(slots, choose|slot: int| is_lowest_free(slots, slot), descriptor)
    }
}

/// The slots after the binding of `slot` was overwritten in place.
pub open spec fn after_update(slots: Seq<SlotView>, slot: int, descriptor: Descriptor) -> Seq<
    SlotView,
> {
    slots.update(slot, SlotView { version: slots[slot].version, descriptor: Some(descriptor) })
}

/// The slots after `slot` was freed.
pub open spec fn after_free(slots: Seq<SlotView>, slot: int) -> Seq<SlotView> {
    slots.update(
        slot,
        SlotView { version: next_version16(slots[slot].version), descriptor: None },
    )
}

/// The slots after one allocation for each of `descriptors`, in order.
pub open spec fn after_allocations(slots: Seq<SlotView>, descriptors: Seq<Descriptor>) -> Seq<
    SlotView,
>
    decreases descriptors.len(),
{
    if descriptors.len() == 0 {
        slots
    } else {
        after_allocate(after_allocations(slots, descriptors.drop_last()), descriptors.last())
    }
}

/// A table of `capacity` free slots at version zero.
pub open spec fn empty_slots(capacity: nat) -> Seq<SlotView> {
    Seq::new(capacity, |slot: int| SlotView { version: 0, descriptor: None })
}

/// The capacities that a table may have are the seventeen powers of two
/// from 1 to 65536.
pub proof fn lemma_valid_capacities(capacity: int)
    ensures
        valid_capacity(capacity) <==> (capacity == 1 || capacity == 2 || capacity == 4 || capacity
            == 8 || capacity == 16 || capacity == 32 || capacity == 64 || capacity == 128
            || capacity == 256 || capacity == 512 || capacity == 1024 || capacity == 2048
            || capacity == 4096 || capacity == 8192 || capacity == 16384 || capacity == 32768
            || capacity == 65536),
{
    vstd::arithmetic::power2::lemma2_to64();
    if valid_capacity(capacity) {
        let exponent = choose|exponent: nat|
            exponent <= 16 && capacity == vstd::arithmetic::power2::pow2(exponent);
        assert(exponent == 0 || exponent == 1 || exponent == 2 || exponent == 3 || exponent == 4
            || exponent == 5 || exponent == 6 || exponent == 7 || exponent == 8 || exponent == 9
            || exponent == 10 || exponent == 11 || exponent == 12 || exponent == 13 || exponent
            == 14 || exponent == 15 || exponent == 16);
    } else {
        assert(forall|exponent: nat|
            exponent <= 16 ==> capacity != #[trigger] vstd::arithmetic::power2::pow2(exponent));
        assert(capacity != vstd::arithmetic::power2::pow2(0));
        assert(capacity != vstd::arithmetic::power2::pow2(1));
        assert(capacity != vstd::arithmetic::power2::pow2(2));
        assert(capacity != vstd::arithmetic::power2::pow2(3));
        assert(capacity != vstd::arithmetic::power2::pow2(4));
        assert(capacity != vstd::arithmetic::power2::pow2(5));
        assert(capacity != vstd::arithmetic::power2::pow2(6));
        assert(capacity != vstd::arithmetic::power2::pow2(7));
        assert(capacity != vstd::arithmetic::power2::pow2(8));
        assert(capacity != vstd::arithmetic::power2::pow2(9));
        assert(capacity != vstd::arithmetic::power2::pow2(10));
        assert(capacity != vstd::arithmetic::power2::pow2(11));
        assert(capacity != vstd::arithmetic::power2::pow2(12));
        assert(capacity != vstd::arithmetic::power2::pow2(13));
        assert(capacity != vstd::arithmetic::power2::pow2(14));
        assert(capacity != vstd::arithmetic::power2::pow2(15));
        assert(capacity != vstd::arithmetic::power2::pow2(16));
    }
}

/// A table that is not full has exactly one lowest free slot.
pub proof fn lemma_lowest_free_exists(slots: Seq<SlotView>)
    requires
        !is_full(slots),
    ensures
        exists|slot: int| is_lowest_free(slots, slot),
        forall|a: int, b: int| is_lowest_free(slots, a) && is_lowest_free(slots, b) ==> a == b,
{
    let witness = choose|slot: int|
        0 <= slot < slots.len() && !((#[trigger] slots[slot]).descriptor is Some);
    lemma_lowest_free_below(slots, witness);
}

proof fn lemma_lowest_free_below(slots: Seq<SlotView>, free: int)
    requires
        0 <= free < slots.len(),
        slots[free].descriptor is None,
    ensures
        exists|slot: int| 0 <= slot <= free && is_lowest_free(slots, slot),
    decreases free,
{
    if exists|below: int| 0 <= below < free && (#[trigger] slots[below]).descriptor is None {
        let below = choose|below: int|
            0 <= below < free && (#[trigger] slots[below]).descriptor is None;
        lemma_lowest_free_below(slots, below);
    } else {
        assert(is_lowest_free(slots, free));
    }
}

/// The slots of a table of `capacity` slots whose first `taken` slots were
/// taken once, in order, for the first `taken` of `descriptors`.
pub open spec fn filled_slots(capacity: nat, descriptors: Seq<Descriptor>, taken: int) -> Seq<
    SlotView,
> {
    Seq::new(
        capacity,
        |slot: int|
            if slot < taken {
                SlotView { version: 1, descriptor: Some(descriptors[slot]) }
            } else {
                SlotView { version: 0, descriptor: None }
            },
    )
}

proof fn lemma_allocations_fill_in_order(capacity: nat, descriptors: Seq<Descriptor>, taken: int)
    requires
        0 <= taken <= capacity,
        taken <= descriptors.len(),
    ensures
        after_allocations(empty_slots(capacity), descriptors.subrange(0, taken)) == filled_slots(
            capacity,
            descriptors,
            taken,
        ),
    decreases taken,
{
    let prefix = descriptors.subrange(0, taken);
    if taken == 0 {
        assert(empty_slots(capacity) =~= filled_slots(capacity, descriptors, 0));
    } else {
        lemma_allocations_fill_in_order(capacity, descriptors, taken - 1);
        assert(prefix.drop_last() =~= descriptors.subrange(0, taken - 1));
        let before = filled_slots(capacity, descriptors, taken - 1);
        assert(before[taken - 1].descriptor is None);
        assert(is_lowest_free(before, taken - 1));
        lemma_lowest_free_exists(before);
        let chosen = choose|slot: int| is_lowest_free(before, slot);
        assert(chosen == taken - 1);
        assert(after_allocate(before, prefix.last()) =~= filled_slots(capacity, descriptors, taken));
    }
}

/// One allocation more than a fresh table has slots: the allocations up to
/// the capacity take the slots from the lowest up, each at version one and
/// with its own binding; the table is then full, so the next allocation is
/// answered with exhaustion, and it changes no slot.
pub proof fn lemma_exhaustion_disturbs_nothing(capacity: nat, descriptors: Seq<Descriptor>)
    requires
        descriptors.len() == capacity + 1,
    ensures
        is_full(after_allocations(empty_slots(capacity), descriptors.drop_last())),
        after_allocations(empty_slots(capacity), descriptors.drop_last()) == filled_slots(
            capacity,
            descriptors,
            capacity as int,
        ),
        after_allocations(empty_slots(capacity), descriptors) == after_allocations(
            empty_slots(capacity),
            descriptors.drop_last(),
        ),
{
    lemma_allocations_fill_in_order(capacity, descriptors, capacity as int);
    assert(descriptors.drop_last() =~= descriptors.subrange(0, capacity as int));
}

/// What is done to one slot leaves every handle of another slot as it was:
/// as valid or stale as before, and bound to what it was bound to.
pub proof fn lemma_other_slots_undisturbed(
    slots: Seq<SlotView>,
    slot: int,
    descriptor: Descriptor,
    other: u32,
)
    requires
        0 <= slot < slots.len(),
        slot_of32(other) != slot,
    ensures
        names_live_slot(after_allocate_at(slots, slot, descriptor), other) == names_live_slot(
            slots,
            other,
        ),
        names_live_slot(after_update(slots, slot, descriptor), other) == names_live_slot(
            slots,
            other,
        ),
        names_live_slot(after_free(slots, slot), other) == names_live_slot(slots, other),
        slot_of32(other) < slots.len() ==> {
            &&& after_allocate_at(slots, slot, descriptor)[slot_of32(other) as int]
                == slots[slot_of32(other) as int]
            &&& after_update(slots, slot, descriptor)[slot_of32(other) as int]
                == slots[slot_of32(other) as int]
            &&& after_free(slots, slot)[slot_of32(other) as int] == slots[slot_of32(
                other,
            ) as int]
        },
{
}

/// A handle that was freed is stale at once, and it is still stale when its
/// slot has been taken again: the new occupant is never reached through the
/// old handle.
pub proof fn lemma_freed_handle_never_aliases(
    slots: Seq<SlotView>,
    word: u32,
    descriptor: Descriptor,
)
    requires
        names_live_slot(slots, word),
    ensures
        !names_live_slot(after_free(slots, slot_of32(word) as int), word),
        !names_live_slot(
            after_allocate_at(
                after_free(slots, slot_of32(word) as int),
                slot_of32(word) as int,
                descriptor,
            ),
            word,
        ),
{
}

/// The slots of a fixed-capacity table and the heap writes that wait to be
/// carried out.
pub struct DescriptorTable {
    pool: HandlePool,
    contents: Vec<Option<Descriptor>>,
    first_free: usize,
    writes: Vec<HeapWrite>,
}

impl View for DescriptorTable {
    type V = Seq<SlotView>;

    closed spec fn view(&self) -> Seq<SlotView> {
        Seq::new(
            self.contents@.len(),
            |slot: int|
                SlotView { version: self.pool@[slot].version, descriptor: self.contents@[slot] },
        )
    }
}

impl DescriptorTable {
    #[verifier::type_invariant]
    closed spec fn well_formed(self) -> bool {
        &&& self.contents@.len() == self.pool@.len()
        &&& self.contents@.len() <= MAX_SLOTS
        &&& self.first_free <= self.contents@.len()
        &&& forall|slot: int|
            0 <= slot < self.contents@.len() ==> (#[trigger] self.pool@[slot]).live
                == self.contents@[slot] is Some
        &&& forall|slot: int|
            0 <= slot < self.first_free ==> (#[trigger] self.contents@[slot]) is Some
    }

    /// The heap writes that were made since the last flush, oldest first.
    pub closed spec fn pending_writes(&self) -> Seq<HeapWrite> {
        self.writes@
    }

    fn hollow() -> (table: DescriptorTable)
        ensures
            table@.len() == 0,
    {
        DescriptorTable {
            pool: HandlePool::empty(),
            contents: Vec::new(),
            first_free: 0,
            writes: Vec::new(),
        }
    }

    /// A table of `capacity` free slots, or the refusal of a capacity that
    /// is no power of two or larger than 65536.
    pub fn new(capacity: usize) -> (result: Result<DescriptorTable, TableError>)
        ensures
            match result {
                Ok(table) => {
                    &&& valid_capacity(capacity as int)
                    &&& table@ == empty_slots(capacity as nat)
                    &&& table.pending_writes() == Seq::<HeapWrite>::empty()
                },
                Err(error) => error == TableError::InvalidCapacity && !valid_capacity(
                    capacity as int,
                ),
            },
    {
        if !is_power_of_two(capacity) {
            return Err(TableError::InvalidCapacity);
        }
        match HandlePool::new(capacity) {
            None => {
                proof {
                    assert(false);
                }
                Err(TableError::InvalidCapacity)
            },
            Some(pool) => {
                let mut contents: Vec<Option<Descriptor>> = Vec::new();
                let mut i: usize = 0;
                while i < capacity
                    invariant
                        i <= capacity,
                        contents@.len() == i,
                        forall|j: int| 0 <= j < i ==> contents@[j] is None,
                    decreases capacity - i,
                {
                    contents.push(None);
                    i += 1;
                }
                let table = DescriptorTable { pool, contents, first_free: 0, writes: Vec::new() };
                proof {
                    assert(table@ =~= empty_slots(capacity as nat));
                }
                Ok(table)
            },
        }
    }

    /// The number of slots.
    pub fn capacity(&self) -> (capacity: usize)
        ensures
            capacity == self@.len(),
    {
        self.contents.len()
    }

    /// Whether `handle` names a taken slot at the slot's current version.
    pub fn is_valid(&self, handle: ResourceHandle) -> (valid: bool)
        ensures
            valid == names_live_slot(self@, handle.word()),
    {
        proof {
            use_type_invariant(self);
        }
        self.pool.is_valid(handle)
    }

    /// What the slot that `handle` names binds. A handle beyond the
    /// capacity, and one that was freed, is answered with the error that
    /// says so.
    pub fn get(&self, handle: ResourceHandle) -> (result: Result<Descriptor, TableError>)
        ensures
            result == if names_live_slot(self@, handle.word()) {
                Ok::<Descriptor, TableError>(
                    self@[slot_of32(handle.word()) as int].descriptor->Some_0,
                )
            } else {
                Err::<Descriptor, TableError>(refusal(self@, handle.word()))
            },
    {
        proof {
            use_type_invariant(self);
        }
        match self.pool.check(handle) {
            Err(HandleError::OutOfRange) => Err(TableError::OutOfRange),
            Err(_) => Err(TableError::Stale),
            Ok(()) => {
                let index = handle.handle() as usize;
                match self.contents[index] {
                    Some(descriptor) => Ok(descriptor),
                    None => {
                        proof {
                            assert(self.pool@[index as int].live);
                            assert(false);
                        }
                        Err(TableError::Stale)
                    },
                }
            },
        }
    }

    /// Takes the lowest free slot for `descriptor`, moves the slot's version
    /// on and returns the handle of the slot at the new version; the write
    /// of the binding into the heap is noted. In a full table nothing
    /// changes and the answer is that the table is exhausted.
    pub fn allocate(&mut self, descriptor: Descriptor) -> (result: Result<
        ResourceHandle,
        TableError,
    >)
        ensures
            final(self)@ == after_allocate(old(self)@, descriptor),
            match result {
                Ok(handle) => {
                    &&& is_lowest_free(old(self)@, slot_of32(handle.word()) as int)
                    &&& version_of32(handle.word()) == next_version16(
                        old(self)@[slot_of32(handle.word()) as int].version,
                    )
                    &&& final(self)@ == after_allocate_at(
                        old(self)@,
                        slot_of32(handle.word()) as int,
                        descriptor,
                    )
                    &&& names_live_slot(final(self)@, handle.word())
                    &&& final(self).pending_writes() == old(self).pending_writes().push(
                        HeapWrite { slot: slot_of32(handle.word()), descriptor },
                    )
                },
                Err(error) => {
                    &&& error == TableError::Exhausted
                    &&& is_full(old(self)@)
                    &&& final(self).pending_writes() == old(self).pending_writes()
                },
            },
    {
        proof {
            use_type_invariant(&*self);
        }
        let capacity = self.contents.len();
        let mut slot = self.first_free;
        while slot < capacity && self.contents[slot].is_some()
            invariant
                slot <= capacity,
                capacity == self.contents@.len(),
                forall|below: int| 0 <= below < slot ==> (#[trigger] self.contents@[below]) is Some,
            decreases capacity - slot,
        {
            slot += 1;
        }
        if slot >= capacity {
            proof {
                assert(is_full(self@));
            }
            return Err(TableError::Exhausted);
        }
        proof {
            assert(is_lowest_free(self@, slot as int));
            assert(!is_full(self@)) by {
                assert(self@[slot as int].descriptor is None);
            }
            lemma_lowest_free_exists(self@);
        }
        let mut taken = DescriptorTable::hollow();
        std::mem::swap(self, &mut taken);
        let DescriptorTable { mut pool, mut contents, first_free, mut writes } = taken;
        match pool.allocate(slot as u16) {
            Ok(handle) => {
                contents.set(slot, Some(descriptor));
                writes.push(HeapWrite { slot: slot as u16, descriptor });
                proof {
                    crate::handle::lemma_pack_unpack32(slot as u16, pool@[slot as int].version);
                }
                *self = DescriptorTable { pool, contents, first_free: slot + 1, writes };
                proof {
                    assert(self@ =~= after_allocate_at(old(self)@, slot as int, descriptor));
                }
                Ok(handle)
            },
            Err(_) => {
                proof {
                    assert(false);
                }
                *self = DescriptorTable { pool, contents, first_free, writes };
                Err(TableError::Exhausted)
            },
        }
    }

    /// Overwrites in place what the slot that `handle` names binds, and
    /// notes the heap write; the handle stays valid. A handle that names no
    /// live slot is refused and nothing changes.
    pub fn update(&mut self, handle: ResourceHandle, descriptor: Descriptor) -> (result: Result<
        (),
        TableError,
    >)
        ensures
            match result {
                Ok(()) => {
                    &&& names_live_slot(old(self)@, handle.word())
                    &&& final(self)@ == after_update(
                        old(self)@,
                        slot_of32(handle.word()) as int,
                        descriptor,
                    )
                    &&& final(self).pending_writes() == old(self).pending_writes().push(
                        HeapWrite { slot: slot_of32(handle.word()), descriptor },
                    )
                },
                Err(error) => {
                    &&& !names_live_slot(old(self)@, handle.word())
                    &&& error == refusal(old(self)@, handle.word())
                    &&& final(self)@ == old(self)@
                    &&& final(self).pending_writes() == old(self).pending_writes()
                },
            },
    {
        proof {
            use_type_invariant(&*self);
        }
        match self.pool.check(handle) {
            Err(HandleError::OutOfRange) => Err(TableError::OutOfRange),
            Err(_) => Err(TableError::Stale),
            Ok(()) => {
                let slot = handle.handle();
                let mut taken = DescriptorTable::hollow();
                std::mem::swap(self, &mut taken);
                let DescriptorTable { pool, mut contents, first_free, mut writes } = taken;
                contents.set(slot as usize, Some(descriptor));
                writes.push(HeapWrite { slot, descriptor });
                *self = DescriptorTable { pool, contents, first_free, writes };
                proof {
                    assert(self@ =~= after_update(old(self)@, slot as int, descriptor));
                }
                Ok(())
            },
        }
    }

    /// Frees the slot that `handle` names, at once: the slot's version
    /// moves on, so the handle is stale from now on, and the slot can be
    /// taken again. A handle that names no live slot is refused and nothing
    /// changes.
    pub fn free(&mut self, handle: ResourceHandle) -> (result: Result<(), TableError>)
        ensures
            final(self).pending_writes() == old(self).pending_writes(),
            match result {
                Ok(()) => {
                    &&& names_live_slot(old(self)@, handle.word())
                    &&& final(self)@ == after_free(old(self)@, slot_of32(handle.word()) as int)
                    &&& !names_live_slot(final(self)@, handle.word())
                },
                Err(error) => {
                    &&& !names_live_slot(old(self)@, handle.word())
                    &&& error == refusal(old(self)@, handle.word())
                    &&& final(self)@ == old(self)@
                },
            },
    {
        proof {
            use_type_invariant(&*self);
        }
        let slot = handle.handle();
        let mut taken = DescriptorTable::hollow();
        std::mem::swap(self, &mut taken);
        let DescriptorTable { mut pool, mut contents, first_free, writes } = taken;
        match pool.recycle(handle) {
            Ok(()) => {
                contents.set(slot as usize, None);
                let lowest = if (slot as usize) < first_free {
                    slot as usize
                } else {
                    first_free
                };
                *self = DescriptorTable { pool, contents, first_free: lowest, writes };
                proof {
                    assert(self@ =~= after_free(old(self)@, slot as int));
                }
                Ok(())
            },
            Err(error) => {
                *self = DescriptorTable { pool, contents, first_free, writes };
                proof {
                    assert(self@ =~= old(self)@);
                }
                match error {
                    HandleError::OutOfRange => Err(TableError::OutOfRange),
                    _ => Err(TableError::Stale),
                }
            },
        }
    }

    /// Hands over the heap writes noted since the last flush, oldest first,
    /// for the backend to carry out in one update; none is noted afterwards.
    pub fn flush_writes(&mut self) -> (writes: Vec<HeapWrite>)
        ensures
            writes@ == old(self).pending_writes(),
            final(self).pending_writes() == Seq::<HeapWrite>::empty(),
            final(self)@ == old(self)@,
    {
        proof {
            use_type_invariant(&*self);
        }
        let mut taken = DescriptorTable::hollow();
        std::mem::swap(self, &mut taken);
        let DescriptorTable { pool, contents, first_free, writes } = taken;
        *self = DescriptorTable { pool, contents, first_free, writes: Vec::new() };
        writes
    }
}

/// Whether `capacity` is a power of two of at most 65536.
pub fn is_power_of_two(capacity: usize) -> (valid: bool)
    ensures
        valid == valid_capacity(capacity as int),
        valid ==> 1 <= capacity <= MAX_SLOTS,
{
    let mut power: usize = 1;
    let mut exponent: u32 = 0;
    proof {
        vstd::arithmetic::power2::lemma2_to64();
    }
    while power < capacity && exponent < 16
        invariant
            exponent <= 16,
            power == vstd::arithmetic::power2::pow2(exponent as nat),
            power <= 0x1_0000,
            forall|smaller: nat|
                smaller < exponent ==> capacity != vstd::arithmetic::power2::pow2(smaller),
        decreases 16 - exponent,
    {
        proof {
            vstd::arithmetic::power2::lemma_pow2_unfold((exponent + 1) as nat);
            vstd::arithmetic::power2::lemma2_to64();
        }
        power = power * 2;
        exponent += 1;
    }
    proof {
        vstd::arithmetic::power2::lemma2_to64();
        if power == capacity {
            assert(valid_capacity(capacity as int));
        } else {
            assert forall|other: nat| other <= 16 implies capacity
                != vstd::arithmetic::power2::pow2(other) by {
                if other > exponent {
                    vstd::arithmetic::power2::lemma_pow2_strictly_increases(exponent as nat, other);
                }
            }
        }
    }
    power == capacity
}

} // verus!
