//! What the library asks of the memory allocator, and the sizes that it
//! asks for.

use vstd::prelude::*;

verus! {

/// Where an allocation lives.
#[derive(Clone, Copy, Debug, PartialEq, Eq, Structural)]
pub enum MemoryLocation {
    /// In device memory, out of the host's reach.
    GpuOnly,
    /// In host-visible memory that the host writes and the device reads.
    CpuToGpu,
    /// In host-visible memory that the device writes and the host reads.
    GpuToCpu,
}

/// Whether an allocation shares a block of memory or has one of its own.
#[derive(Clone, Copy, Debug, PartialEq, Eq, Structural)]
pub enum AllocationScheme {
    /// The allocator places the allocation where it sees fit.
    Managed,
    /// A block of its own, for this buffer.
    DedicatedBuffer(u64),
    /// A block of its own, for this image.
    DedicatedImage(u64),
}

/// What a buffer is used for.
#[derive(Clone, Copy, Debug, PartialEq, Eq, Structural)]
pub struct BufferUsage {
    pub transfer_source: bool,
    pub transfer_destination: bool,
    pub storage: bool,
    pub index: bool,
    pub vertex: bool,
}

/// The description from which a buffer is created.
#[derive(Clone, Copy, Debug)]
pub struct BufferDescriptor<'a> {
    /// The name by which the native object is tagged for debugging.
    pub label: &'a str,
    pub usage: BufferUsage,
    /// The size in bytes.
    pub size: u64,
    pub location: MemoryLocation,
}

/// The value of a flag: the bit where the flag is set, else nothing.
pub open spec fn flag(set: bool, bit: u32) -> u32 {
    if set {
        bit
    } else {
        0
    }
}

/// The Vulkan bits of a buffer's usage: one bit for each use, added up.
pub open spec fn buffer_usage_bits(usage: BufferUsage) -> u32 {
    (flag(usage.transfer_source, 0x1) + flag(usage.transfer_destination, 0x2) + flag(
        usage.storage,
        0x20,
    ) + flag(usage.index, 0x40) + flag(usage.vertex, 0x80)) as u32
}

/// The Vulkan bits of a buffer's usage.
pub fn buffer_usage_to_raw(usage: BufferUsage) -> (bits: u32)
    ensures
        bits == buffer_usage_bits(usage),
{
    let mut bits: u32 = 0;
    if usage.transfer_source {
        bits = bits + 0x1;
    }
    if usage.transfer_destination {
        bits = bits + 0x2;
    }
    if usage.storage {
        bits = bits + 0x20;
    }
    if usage.index {
        bits = bits + 0x40;
    }
    if usage.vertex {
        bits = bits + 0x80;
    }
    bits
}

/// The bytes that each pixel of a texture takes: four channels of eight
/// bits.
pub const BYTES_PER_PIXEL: u64 = 4;

/// Whether the host can reach memory at `location` through a mapping.
pub fn host_visible(location: MemoryLocation) -> (visible: bool)
    ensures
        visible == (location != MemoryLocation::GpuOnly),
{
    match location {
        MemoryLocation::GpuOnly => false,
        MemoryLocation::CpuToGpu => true,
        MemoryLocation::GpuToCpu => true,
    }
}

/// The bytes that a texture of `width` by `height` pixels takes, or nothing
/// where a `u64` cannot count them.
pub fn texture_size(width: u32, height: u32) -> (size: Option<u64>)
    ensures
        size == if width * height * 4 <= u64::MAX {
            Some((width * height * 4) as u64)
        } else {
            None
        },
{
    assert(width * height <= 0xFFFF_FFFF * 0xFFFF_FFFF) by (nonlinear_arith)
        requires
            0 <= width <= 0xFFFF_FFFF,
            0 <= height <= 0xFFFF_FFFF,
    ;
    let pixels: u64 = (width as u64) * (height as u64);
    pixels.checked_mul(BYTES_PER_PIXEL)
}

/// The bytes that `count` elements of `stride` bytes each take, or nothing
/// where a `u64` cannot count them.
pub fn buffer_size(stride: u64, count: u64) -> (size: Option<u64>)
    ensures
        size == if stride * count <= u64::MAX {
            Some((stride * count) as u64)
        } else {
            None
        },
{
    stride.checked_mul(count)
}

} // verus!
