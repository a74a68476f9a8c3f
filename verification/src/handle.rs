//! Generational handles: a slot index and a version packed into one machine
//! word, in two widths.

use vstd::prelude::*;

verus! {

/// Bits of a 32-bit handle word.
pub const BIT_COUNT32: u32 = 32;

/// Bits that each half of a 32-bit handle word takes.
pub const SHIFT_COUNT32: u32 = 16;

/// Mask of the slot half of a 32-bit handle word.
pub const HANDLE_MASK32: u32 = 0x0000_FFFF;

/// Mask of the version half of a 32-bit handle word.
pub const VERSION_MASK32: u32 = 0xFFFF_0000;

/// Bits of a 64-bit handle word.
pub const BIT_COUNT64: u32 = 64;

/// Bits that each half of a 64-bit handle word takes.
pub const SHIFT_COUNT64: u32 = 32;

/// Mask of the slot half of a 64-bit handle word.
pub const HANDLE_MASK64: u64 = 0x0000_0000_FFFF_FFFF;

/// Mask of the version half of a 64-bit handle word.
pub const VERSION_MASK64: u64 = 0xFFFF_FFFF_0000_0000;

/// The slot index that a 32-bit handle word carries in its low half.
pub open spec fn slot_of32(word: u32) -> u16 {
    (word as int % 0x1_0000) as u16
}

/// The version that a 32-bit handle word carries in its high half.
pub open spec fn version_of32(word: u32) -> u16 {
    (word as int / 0x1_0000) as u16
}

/// The 32-bit word made of a slot index and a version.
pub open spec fn pack32(slot: u16, version: u16) -> u32 {
    (version as int * 0x1_0000 + slot as int) as u32
}

/// The version after `version`. The highest version is followed by zero: a
/// slot reused often enough meets its old versions again.
pub open spec fn next_version16(version: u16) -> u16 {
    if version == 0xFFFF {
        0
    } else {
        (version + 1) as u16
    }
}

/// The slot index that a 64-bit handle word carries in its low half.
pub open spec fn slot_of64(word: u64) -> u32 {
    (word as int % 0x1_0000_0000) as u32
}

/// The version that a 64-bit handle word carries in its high half.
pub open spec fn version_of64(word: u64) -> u32 {
    (word as int / 0x1_0000_0000) as u32
}

/// The 64-bit word made of a slot index and a version.
pub open spec fn pack64(slot: u32, version: u32) -> u64 {
    (version as int * 0x1_0000_0000 + slot as int) as u64
}

/// The version after `version`, for the 64-bit word.
pub open spec fn next_version32(version: u32) -> u32 {
    if version == 0xFFFF_FFFF {
        0
    } else {
        (version + 1) as u32
    }
}

proof fn lemma_halves32(word: u32)
    by (bit_vector)
    ensures
        word & 0xFFFFu32 == word % 0x1_0000u32,
        (word & 0xFFFF_0000u32) >> 16u32 == word / 0x1_0000u32,
        word & 0xFFFF_0000u32 == (word / 0x1_0000u32) << 16u32,
        word / 0x1_0000u32 <= 0xFFFFu32,
        word % 0x1_0000u32 <= 0xFFFFu32,
{
}

proof fn lemma_join32(high: u32, low: u32)
    by (bit_vector)
    requires
        high <= 0x1_0000u32,
        low <= 0xFFFFu32,
    ensures
        high <= 0xFFFFu32 ==> (high << 16u32) | low == high * 0x1_0000u32 + low,
        high == 0x1_0000u32 ==> (high << 16u32) | low == low,
{
}

proof fn lemma_halves64(word: u64)
    by (bit_vector)
    ensures
        word & 0xFFFF_FFFFu64 == word % 0x1_0000_0000u64,
        (word & 0xFFFF_FFFF_0000_0000u64) >> 32u64 == word / 0x1_0000_0000u64,
        word & 0xFFFF_FFFF_0000_0000u64 == (word / 0x1_0000_0000u64) << 32u64,
        word / 0x1_0000_0000u64 <= 0xFFFF_FFFFu64,
        word % 0x1_0000_0000u64 <= 0xFFFF_FFFFu64,
{
}

proof fn lemma_join64(high: u64, low: u64)
    by (bit_vector)
    requires
        high <= 0x1_0000_0000u64,
        low <= 0xFFFF_FFFFu64,
    ensures
        high <= 0xFFFF_FFFFu64 ==> (high << 32u64) | low == high * 0x1_0000_0000u64 + low,
        high == 0x1_0000_0000u64 ==> (high << 32u64) | low == low,
{
}

/// A slot and a version, packed and unpacked again, are the slot and the
/// version that went in: for every slot and every version of the 32-bit
/// word.
pub proof fn lemma_pack_unpack32(slot: u16, version: u16)
    ensures
        slot_of32(pack32(slot, version)) == slot,
        version_of32(pack32(slot, version)) == version,
{
}

/// A 32-bit word is the packing of its own two halves.
pub proof fn lemma_unpack_pack32(word: u32)
    ensures
        pack32(slot_of32(word), version_of32(word)) == word,
{
}

/// A slot and a version, packed and unpacked again, are the slot and the
/// version that went in: for every slot and every version of the 64-bit
/// word.
pub proof fn lemma_pack_unpack64(slot: u32, version: u32)
    ensures
        slot_of64(pack64(slot, version)) == slot,
        version_of64(pack64(slot, version)) == version,
{
}

/// A 64-bit word is the packing of its own two halves.
pub proof fn lemma_unpack_pack64(word: u64)
    ensures
        pack64(slot_of64(word), version_of64(word)) == word,
{
}

/// A value that holds a 32-bit handle word: the slot index in the low 16
/// bits, the version in the high 16 bits.
pub trait Handle32 {
    /// The word that the value holds.
    spec fn word(&self) -> u32;

    /// The packed word.
    fn value(&self) -> (v: u32)
        ensures
            v == self.word(),
    ;

    /// Access to the packed word; what is written through it is the word
    /// that the value holds afterwards.
    fn value_mut(&mut self) -> (r: &mut u32)
        ensures
            *r == old(self).word(),
            final(self).word() == *final(r),
    ;

    /// Moves the version half to the next version and leaves the slot half
    /// as it is.
    fn increase_version(&mut self)
        ensures
            final(self).word() == pack32(
                slot_of32(old(self).word()),
                next_version16(version_of32(old(self).word())),
            ),
    {
        let current_version = self.version() as u32;
        let word = self.value();
        let next: u32 = current_version + 1;
        proof {
            lemma_halves32(word);
            lemma_join32(next, word & HANDLE_MASK32);
        }
        *self.value_mut() = (next << SHIFT_COUNT32) | (word & HANDLE_MASK32);
    }

    /// Exchanges the slot half with `handle` and leaves the version half as
    /// it is: a free list can be threaded through the slot halves.
    fn swap_handle(&mut self, handle: &mut u16)
        ensures
            final(self).word() == pack32(*old(handle), version_of32(old(self).word())),
            *final(handle) == slot_of32(old(self).word()),
    {
        let current_handle_id = self.handle();
        let word = self.value();
        let incoming: u16 = *handle;
        proof {
            lemma_halves32(word);
            lemma_join32(word / 0x1_0000, incoming as u32);
        }
        *self.value_mut() = (word & VERSION_MASK32) | (incoming as u32);
        *handle = current_handle_id;
    }

    /// The slot half.
    fn handle(&self) -> (slot: u16)
        ensures
            slot == slot_of32(self.word()),
    {
        let word = self.value();
        proof {
            lemma_halves32(word);
        }
        (word & HANDLE_MASK32) as u16
    }

    /// The version half.
    fn version(&self) -> (version: u16)
        ensures
            version == version_of32(self.word()),
    {
        let word = self.value();
        proof {
            lemma_halves32(word);
        }
        ((word & VERSION_MASK32) >> SHIFT_COUNT32) as u16
    }
}

/// A value that holds a 64-bit handle word: the slot index in the low 32
/// bits, the version in the high 32 bits.
pub trait Handle64 {
    /// The word that the value holds.
    spec fn word(&self) -> u64;

    /// The packed word.
    fn value(&self) -> (v: u64)
        ensures
            v == self.word(),
    ;

    /// Access to the packed word; what is written through it is the word
    /// that the value holds afterwards.
    fn value_mut(&mut self) -> (r: &mut u64)
        ensures
            *r == old(self).word(),
            final(self).word() == *final(r),
    ;

    /// Moves the version half to the next version and leaves the slot half
    /// as it is.
    fn increase_version(&mut self)
        ensures
            final(self).word() == pack64(
                slot_of64(old(self).word()),
                next_version32(version_of64(old(self).word())),
            ),
    {
        let current_version = self.version() as u64;
        let word = self.value();
        let next: u64 = current_version + 1;
        proof {
            lemma_halves64(word);
            lemma_join64(next, word & HANDLE_MASK64);
        }
        *self.value_mut() = (next << SHIFT_COUNT64) | (word & HANDLE_MASK64);
    }

    /// Exchanges the slot half with `handle` and leaves the version half as
    /// it is.
    fn swap_handle(&mut self, handle: &mut u32)
        ensures
            final(self).word() == pack64(*old(handle), version_of64(old(self).word())),
            *final(handle) == slot_of64(old(self).word()),
    {
        let current_handle_id = self.handle();
        let word = self.value();
        let incoming: u32 = *handle;
        proof {
            lemma_halves64(word);
            lemma_join64(word / 0x1_0000_0000, incoming as u64);
        }
        *self.value_mut() = (word & VERSION_MASK64) | (incoming as u64);
        *handle = current_handle_id;
    }

    /// The slot half.
    fn handle(&self) -> (slot: u32)
        ensures
            slot == slot_of64(self.word()),
    {
        let word = self.value();
        proof {
            lemma_halves64(word);
        }
        (word & HANDLE_MASK64) as u32
    }

    /// The version half.
    fn version(&self) -> (version: u32)
        ensures
            version == version_of64(self.word()),
    {
        let word = self.value();
        proof {
            lemma_halves64(word);
        }
        ((word & VERSION_MASK64) >> SHIFT_COUNT64) as u32
    }
}

/// The handle by which a resource is named: a 32-bit word that shaders and
/// tables can hold in place of a native pointer.
#[derive(Clone, Copy, Debug, PartialEq, Eq, Structural)]
pub struct ResourceHandle {
    raw: u32,
}

impl ResourceHandle {
    /// The handle of a slot at a version.
    pub fn new(slot: u16, version: u16) -> (handle: ResourceHandle)
        ensures
            handle.word() == pack32(slot, version),
            slot_of32(handle.word()) == slot,
            version_of32(handle.word()) == version,
    {
        proof {
            lemma_join32(version as u32, slot as u32);
        }
        ResourceHandle { raw: ((version as u32) << SHIFT_COUNT32) | (slot as u32) }
    }

    /// The handle that a packed word stands for.
    pub fn from_raw(raw: u32) -> (handle: ResourceHandle)
        ensures
            handle.word() == raw,
    {
        ResourceHandle { raw }
    }

    /// Whether the handle carries the version that a table stores for its
    /// slot. A handle of another version is stale.
    pub fn is_valid(&self, stored_version: u16) -> (valid: bool)
        ensures
            valid == (version_of32(self.word()) == stored_version),
    {
        self.version() == stored_version
    }
}

impl Handle32 for ResourceHandle {
    closed spec fn word(&self) -> u32 {
        self.raw
    }

    fn value(&self) -> (v: u32) {
        self.raw
    }

    fn value_mut(&mut self) -> (r: &mut u32) {
        &mut self.raw
    }
}

/// A handle of the wide form: a 64-bit word with 32 bits for each half.
#[derive(Clone, Copy, Debug, PartialEq, Eq, Structural)]
pub struct WideHandle {
    raw: u64,
}

impl WideHandle {
    /// The handle of a slot at a version.
    pub fn new(slot: u32, version: u32) -> (handle: WideHandle)
        ensures
            handle.word() == pack64(slot, version),
            slot_of64(handle.word()) == slot,
            version_of64(handle.word()) == version,
    {
        proof {
            lemma_join64(version as u64, slot as u64);
        }
        WideHandle { raw: ((version as u64) << SHIFT_COUNT64) | (slot as u64) }
    }

    /// The handle that a packed word stands for.
    pub fn from_raw(raw: u64) -> (handle: WideHandle)
        ensures
            handle.word() == raw,
    {
        WideHandle { raw }
    }

    /// Whether the handle carries the version that a table stores for its
    /// slot.
    pub fn is_valid(&self, stored_version: u32) -> (valid: bool)
        ensures
            valid == (version_of64(self.word()) == stored_version),
    {
        self.version() == stored_version
    }
}

impl Handle64 for WideHandle {
    closed spec fn word(&self) -> u64 {
        self.raw
    }

    fn value(&self) -> (v: u64) {
        self.raw
    }

    fn value_mut(&mut self) -> (r: &mut u64) {
        &mut self.raw
    }
}

} // verus!
