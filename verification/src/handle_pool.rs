//! The table of versions behind the handles: for each slot its current
//! version and whether a handle for it is out.

use vstd::prelude::*;
use crate::handle::{next_version16, pack32, slot_of32, version_of32, Handle32, ResourceHandle};

verus! {

/// What the pool knows of one slot.
pub struct SlotState {
    /// The version that a valid handle for the slot carries.
    pub version: u16,
    /// Whether a handle for the slot is out.
    pub live: bool,
}

/// Why the pool refused a slot or a handle.
#[derive(Clone, Copy, Debug, PartialEq, Eq, Structural)]
pub enum HandleError {
    /// The slot index lies beyond the pool's capacity.
    OutOfRange,
    /// The handle's version is not the slot's current one, or the slot is
    /// free: the handle was recycled.
    Stale,
    /// The slot is already handed out.
    Occupied,
}

/// The most slots that a pool of 32-bit handles can address.
pub const MAX_SLOTS: usize = 0x1_0000;

/// Whether `word` names a slot of `slots` that is handed out at the version
/// that the word carries.
pub open spec fn handle_valid(slots: Seq<SlotState>, word: u32) -> bool {
    let slot = slot_of32(word) as int;
    &&& slot < slots.len()
    &&& slots[slot].live
    &&& slots[slot].version == version_of32(word)
}

/// The slots after `slot` was handed out: its version moved on, the slot
/// live.
pub open spec fn after_allocate(slots: Seq<SlotState>, slot: int) -> Seq<SlotState> {
    slots.update(slot, SlotState { version: next_version16(slots[slot].version), live: true })
}

/// The slots after the handle for `slot` was recycled: its version moved on,
/// the slot free.
pub open spec fn after_recycle(slots: Seq<SlotState>, slot: int) -> Seq<SlotState> {
    slots.update(slot, SlotState { version: next_version16(slots[slot].version), live: false })
}

/// The slots after `slot`, handed out, was recycled and handed out again
/// `cycles` times.
pub open spec fn after_reuse(slots: Seq<SlotState>, slot: int, cycles: nat) -> Seq<SlotState>
    decreases cycles,
{
    if cycles == 0 {
        slots
    } else {
        after_allocate(after_recycle(after_reuse(slots, slot, (cycles - 1) as nat), slot), slot)
    }
}

proof fn lemma_after_reuse(slots: Seq<SlotState>, slot: int, cycles: nat)
    requires
        0 <= slot < slots.len(),
        slots[slot].live,
    ensures
        after_reuse(slots, slot, cycles).len() == slots.len(),
        after_reuse(slots, slot, cycles)[slot].live,
        after_reuse(slots, slot, cycles)[slot].version as int == (slots[slot].version as int + 2
            * cycles) % 0x1_0000,
        forall|other: int|
            0 <= other < slots.len() && other != slot ==> after_reuse(slots, slot, cycles)[other]
                == slots[other],
    decreases cycles,
{
    if cycles > 0 {
        lemma_after_reuse(slots, slot, (cycles - 1) as nat);
    }
}

/// A handle is valid from the moment its slot is handed out. Once the slot
/// has been recycled the handle is stale, and it stays stale however often
/// the slot is handed out and recycled again, as long as the 16-bit version
/// has not come round to the handle's own (fewer than 32768 reuses). The
/// handle that the last reuse handed out is valid, and no other slot is
/// touched.
pub proof fn lemma_reuse_rejects_old_handle(slots: Seq<SlotState>, slot: u16, cycles: nat)
    requires
        slot < slots.len(),
        slots[slot as int].live,
        0 < cycles < 0x8000,
    ensures
        handle_valid(slots, pack32(slot, slots[slot as int].version)),
        !handle_valid(
            after_recycle(slots, slot as int),
            pack32(slot, slots[slot as int].version),
        ),
        !handle_valid(
            after_reuse(slots, slot as int, cycles),
            pack32(slot, slots[slot as int].version),
        ),
        handle_valid(
            after_reuse(slots, slot as int, cycles),
            pack32(slot, after_reuse(slots, slot as int, cycles)[slot as int].version),
        ),
        forall|other: int|
            0 <= other < slots.len() && other != slot ==> after_reuse(
                slots,
                slot as int,
                cycles,
            )[other] == slots[other],
{
    lemma_after_reuse(slots, slot as int, cycles);
    crate::handle::lemma_pack_unpack32(slot, slots[slot as int].version);
    crate::handle::lemma_pack_unpack32(
        slot,
        after_reuse(slots, slot as int, cycles)[slot as int].version,
    );
}

/// The versions of a fixed number of slots.
pub struct HandlePool {
    versions: Vec<u16>,
    live: Vec<bool>,
}

impl View for HandlePool {
    type V = Seq<SlotState>;

    closed spec fn view(&self) -> Seq<SlotState> {
        Seq::new(
            self.versions@.len(),
            |i: int| SlotState { version: self.versions@[i], live: self.live@[i] },
        )
    }
}

impl HandlePool {
    #[verifier::type_invariant]
    closed spec fn well_formed(self) -> bool {
        &&& self.versions@.len() == self.live@.len()
        &&& self.versions@.len() <= MAX_SLOTS
    }

    /// A pool without slots.
    pub fn empty() -> (pool: HandlePool)
        ensures
            pool@.len() == 0,
    {
        HandlePool { versions: Vec::new(), live: Vec::new() }
    }

    /// A pool of `capacity` free slots at version zero, or nothing where the
    /// slot half of a handle cannot count that many.
    pub fn new(capacity: usize) -> (pool: Option<HandlePool>)
        ensures
            pool is Some <==> capacity <= MAX_SLOTS,
            pool matches Some(p) ==> {
                &&& p@.len() == capacity
                &&& forall|i: int| 0 <= i < capacity ==> p@[i] == SlotState {
                    version: 0,
                    live: false,
                }
            },
    {
        if capacity > MAX_SLOTS {
            return None;
        }
        let mut versions: Vec<u16> = Vec::new();
        let mut live: Vec<bool> = Vec::new();
        let mut i: usize = 0;
        while i < capacity
            invariant
                i <= capacity,
                versions@.len() == i,
                live@.len() == i,
                forall|j: int| 0 <= j < i ==> versions@[j] == 0 && !live@[j],
            decreases capacity - i,
        {
            versions.push(0);
            live.push(false);
            i += 1;
        }
        Some(HandlePool { versions, live })
    }

    /// The number of slots.
    pub fn capacity(&self) -> (capacity: usize)
        ensures
            capacity == self@.len(),
            capacity <= MAX_SLOTS,
    {
        proof {
            use_type_invariant(self);
        }
        self.versions.len()
    }

    /// Whether a handle for `slot` is out; a slot beyond the capacity is not
    /// live.
    pub fn is_live(&self, slot: usize) -> (live: bool)
        ensures
            live == (slot < self@.len() && self@[slot as int].live),
    {
        proof {
            use_type_invariant(self);
        }
        slot < self.live.len() && self.live[slot]
    }

    /// The version stored for `slot`, or nothing beyond the capacity.
    pub fn version_at(&self, slot: usize) -> (version: Option<u16>)
        ensures
            version == if slot < self@.len() {
                Some(self@[slot as int].version)
            } else {
                None
            },
    {
        proof {
            use_type_invariant(self);
        }
        if slot < self.versions.len() {
            Some(self.versions[slot])
        } else {
            None
        }
    }

    /// Hands out `slot`: moves its stored version on and returns the handle
    /// of the slot at the new version. A slot beyond the capacity, or one
    /// that is handed out already, is refused and nothing changes.
    pub fn allocate(&mut self, slot: u16) -> (result: Result<ResourceHandle, HandleError>)
        ensures
            match result {
                Ok(handle) => {
                    &&& slot < old(self)@.len()
                    &&& !old(self)@[slot as int].live
                    &&& final(self)@ == after_allocate(old(self)@, slot as int)
                    &&& handle.word() == pack32(slot, final(self)@[slot as int].version)
                    &&& handle_valid(final(self)@, handle.word())
                },
                Err(error) => {
                    &&& final(self)@ == old(self)@
                    &&& error == if slot >= old(self)@.len() {
                        HandleError::OutOfRange
                    } else {
                        HandleError::Occupied
                    }
                    &&& (slot >= old(self)@.len() || old(self)@[slot as int].live)
                },
            },
    {
        proof {
            use_type_invariant(&*self);
        }
        let index = slot as usize;
        if index >= self.versions.len() {
            return Err(HandleError::OutOfRange);
        }
        if self.live[index] {
            return Err(HandleError::Occupied);
        }
        let mut handle = ResourceHandle::new(slot, self.versions[index]);
        handle.increase_version();
        let version = handle.version();
        let mut taken = HandlePool::empty();
        std::mem::swap(self, &mut taken);
        let HandlePool { mut versions, mut live } = taken;
        versions.set(index, version);
        live.set(index, true);
        *self = HandlePool { versions, live };
        proof {
            crate::handle::lemma_pack_unpack32(slot, version);
            assert(self@ =~= after_allocate(old(self)@, slot as int));
        }
        Ok(handle)
    }

    /// Whether `handle` names a slot that is handed out at the handle's
    /// version.
    pub fn is_valid(&self, handle: ResourceHandle) -> (valid: bool)
        ensures
            valid == handle_valid(self@, handle.word()),
    {
        proof {
            use_type_invariant(self);
        }
        let index = handle.handle() as usize;
        index < self.versions.len() && self.live[index] && handle.is_valid(self.versions[index])
    }

    /// Says what is wrong with `handle`, if anything: a slot beyond the
    /// capacity, or a version that is no longer current.
    pub fn check(&self, handle: ResourceHandle) -> (result: Result<(), HandleError>)
        ensures
            result is Ok <==> handle_valid(self@, handle.word()),
            result matches Err(error) ==> error == if slot_of32(handle.word()) >= self@.len() {
                HandleError::OutOfRange
            } else {
                HandleError::Stale
            },
    {
        proof {
            use_type_invariant(self);
        }
        let index = handle.handle() as usize;
        if index >= self.versions.len() {
            Err(HandleError::OutOfRange)
        } else if self.live[index] && handle.is_valid(self.versions[index]) {
            Ok(())
        } else {
            Err(HandleError::Stale)
        }
    }

    /// Takes `handle` back: frees its slot and moves the stored version on,
    /// so that the handle, and every copy of it, is stale from now on. A
    /// handle that is not valid is refused and nothing changes.
    pub fn recycle(&mut self, handle: ResourceHandle) -> (result: Result<(), HandleError>)
        ensures
            result is Ok <==> handle_valid(old(self)@, handle.word()),
            result is Ok ==> {
                &&& final(self)@ == after_recycle(old(self)@, slot_of32(handle.word()) as int)
                &&& !handle_valid(final(self)@, handle.word())
            },
            result matches Err(error) ==> {
                &&& final(self)@ == old(self)@
                &&& error == if slot_of32(handle.word()) >= old(self)@.len() {
                    HandleError::OutOfRange
                } else {
                    HandleError::Stale
                }
            },
    {
        match self.check(handle) {
            Err(error) => Err(error),
            Ok(()) => {
                proof {
                    use_type_invariant(&*self);
                }
                let index = handle.handle() as usize;
                let mut bumped = handle;
                bumped.increase_version();
                let version = bumped.version();
                let mut taken = HandlePool::empty();
                std::mem::swap(self, &mut taken);
                let HandlePool { mut versions, mut live } = taken;
                versions.set(index, version);
                live.set(index, false);
                *self = HandlePool { versions, live };
                proof {
                    crate::handle::lemma_pack_unpack32(
                        slot_of32(handle.word()),
                        next_version16(version_of32(handle.word())),
                    );
                    assert(self@ =~= after_recycle(old(self)@, index as int));
                }
                Ok(())
            },
        }
    }
}

} // verus!
