//! The device's side of a resource's life: the descriptor table and the
//! destruction queue that the device owns, the ring of frames that paces
//! it, and the wrappers whose end hands native objects to the queue.

use vstd::prelude::*;
use crate::descriptor_table::{
    after_allocate, after_free, is_full, is_lowest_free, names_live_slot, refusal, Descriptor,
    DescriptorTable, HeapWrite, ResourceKind, TableError,
};
use crate::descriptor_table::{empty_slots, valid_capacity};
use crate::destruction_queue::{
    due, lemma_drain_after_push, lemma_drain_of_nothing, not_due, DestructionQueue, NativeObject,
    ObjectKind, PendingDestruction,
};
use crate::frame_ring::{
    fresh_slot, retire_point, ring_wf, FrameObjects, FrameRing, RingError, RingView,
};
use crate::timeline::reached;
use crate::handle::{slot_of32, Handle32, ResourceHandle};

verus! {

/// A texture's wrapper: the native image, its view, the allocation behind
/// it where the texture owns one, and the handle of its slot in the
/// descriptor table.
#[derive(Clone, Copy, Debug, PartialEq, Eq, Structural)]
pub struct Texture {
    pub image: u64,
    pub view: u64,
    pub allocation: Option<u64>,
    pub handle: ResourceHandle,
}

/// A buffer's wrapper: the native buffer, the allocation behind it, and,
/// for a buffer that shaders address, the handle of its slot.
#[derive(Clone, Copy, Debug, PartialEq, Eq, Structural)]
pub struct Buffer {
    pub buffer: u64,
    pub allocation: u64,
    pub handle: Option<ResourceHandle>,
}

/// Why the device's tables could not be set up.
#[derive(Clone, Copy, Debug, PartialEq, Eq, Structural)]
pub enum SetupError {
    Table(TableError),
    Ring(RingError),
}

/// What a device owns besides its native objects. The three parts stand
/// side by side; each keeps its own rules.
pub struct RenderDevice {
    pub descriptors: DescriptorTable,
    pub queue: DestructionQueue,
    pub ring: FrameRing,
}

/// What the end of a texture queues.
pub open spec fn texture_object(texture: Texture) -> NativeObject {
    NativeObject::Texture {
        image: texture.image,
        view: texture.view,
        own_allocation: texture.allocation,
    }
}

/// What the end of a buffer queues.
pub open spec fn buffer_object(buffer: Buffer) -> NativeObject {
    NativeObject::Buffer { buffer: buffer.buffer, allocation: buffer.allocation }
}

/// A texture that loses its owner while a frame may use it outlives that
/// frame. Released into an empty queue, it is the queue's one entry; a
/// drain while the timeline has not reached the frame releases nothing and
/// leaves the entry pending; the first drain at which the timeline has
/// reached the frame releases exactly the texture, and nothing is pending
/// any more.
pub proof fn lemma_released_texture_outlives_its_frame(
    texture: Texture,
    ring: RingView,
    completed: Option<u64>,
)
    ensures
        ({
            let entry = PendingDestruction {
                object: texture_object(texture),
                submitted: retire_point(ring),
            };
            let queue = Seq::<PendingDestruction>::empty().push(entry);
            &&& queue.len() == 1
            &&& !reached(completed, retire_point(ring)) ==> {
                &&& queue.filter(due(completed)).len() == 0
                &&& queue.filter(not_due(completed)) == queue
            }
            &&& reached(completed, retire_point(ring)) ==> {
                &&& queue.filter(due(completed)) == queue
                &&& queue.filter(not_due(completed)).len() == 0
            }
        }),
{
    let entry = PendingDestruction {
        object: texture_object(texture),
        submitted: retire_point(ring),
    };
    lemma_drain_of_nothing(completed);
    lemma_drain_after_push(Seq::<PendingDestruction>::empty(), entry, completed);
}

impl RenderDevice {
    /// A device's tables: a descriptor table of `capacity` free slots, an
    /// empty destruction queue, and a ring with a slot for each of
    /// `frames`.
    pub fn new(capacity: usize, frames: Vec<FrameObjects>) -> (result: Result<
        RenderDevice,
        SetupError,
    >)
        ensures
            match result {
                Ok(device) => {
                    &&& valid_capacity(capacity as int)
                    &&& frames@.len() >= 1
                    &&& device.descriptors@ == empty_slots(capacity as nat)
                    &&& device.descriptors.pending_writes().len() == 0
                    &&& device.queue@.len() == 0
                    &&& ring_wf(device.ring@)
                    &&& device.ring@.slots.len() == frames@.len()
                    &&& forall|slot: int|
                        0 <= slot < frames@.len() ==> device.ring@.slots[slot] == fresh_slot(
                            frames@[slot],
                        )
                    &&& device.ring@.next_frame == 0
                    &&& device.ring@.completed is None
                    &&& !device.ring@.rebuild_wanted
                },
                Err(SetupError::Table(error)) => error == TableError::InvalidCapacity
                    && !valid_capacity(capacity as int),
                Err(SetupError::Ring(error)) => error == RingError::NoSlots && frames@.len() == 0
                    && valid_capacity(capacity as int),
            },
    {
        let descriptors = match DescriptorTable::new(capacity) {
            Ok(table) => table,
            Err(error) => {
                return Err(SetupError::Table(error));
            },
        };
        let ring = match FrameRing::new(frames) {
            Ok(ring) => ring,
            Err(error) => {
                return Err(SetupError::Ring(error));
            },
        };
        Ok(RenderDevice { descriptors, queue: DestructionQueue::new(), ring })
    }

    /// Wraps a texture that was created natively and gives it the lowest
    /// free slot of the descriptor table, bound to the texture's view. In a
    /// full table there is no slot, and nothing changes.
    pub fn create_texture(&mut self, image: u64, view: u64, allocation: Option<u64>) -> (result:
        Result<Texture, TableError>)
        ensures
            final(self).queue@ == old(self).queue@,
            final(self).ring@ == old(self).ring@,
            final(self).descriptors@ == after_allocate(
                old(self).descriptors@,
                Descriptor { kind: ResourceKind::Texture, reference: view },
            ),
            match result {
                Ok(texture) => {
                    &&& texture.image == image
                    &&& texture.view == view
                    &&& texture.allocation == allocation
                    &&& is_lowest_free(
                        old(self).descriptors@,
                        slot_of32(texture.handle.word()) as int,
                    )
                    &&& names_live_slot(final(self).descriptors@, texture.handle.word())
                    &&& final(self).descriptors.pending_writes() == old(
                        self,
                    ).descriptors.pending_writes().push(
                        HeapWrite {
                            slot: slot_of32(texture.handle.word()),
                            descriptor: Descriptor { kind: ResourceKind::Texture, reference: view },
                        },
                    )
                },
                Err(error) => {
                    &&& error == TableError::Exhausted
                    &&& is_full(old(self).descriptors@)
                    &&& final(self).descriptors.pending_writes() == old(
                        self,
                    ).descriptors.pending_writes()
                },
            },
    {
        let descriptor = Descriptor { kind: ResourceKind::Texture, reference: view };
        match self.descriptors.allocate(descriptor) {
            Ok(handle) => Ok(Texture { image, view, allocation, handle }),
            Err(error) => Err(error),
        }
    }

    /// Ends a texture whose last owner is gone. Its slot in the descriptor
    /// table is freed at once; its native objects are not destroyed but
    /// queued, as one entry, at the point at which they are safe, since a
    /// frame in flight or in progress may still use them. A texture whose handle is stale was ended
    /// before: it is refused and nothing changes.
    pub fn release_texture(&mut self, texture: Texture) -> (result: Result<(), TableError>)
        ensures
            final(self).ring@ == old(self).ring@,
            final(self).descriptors.pending_writes() == old(self).descriptors.pending_writes(),
            match result {
                Ok(()) => {
                    &&& names_live_slot(old(self).descriptors@, texture.handle.word())
                    &&& final(self).descriptors@ == after_free(
                        old(self).descriptors@,
                        slot_of32(texture.handle.word()) as int,
                    )
                    &&& final(self).queue@ == old(self).queue@.push(
                        PendingDestruction {
                            object: texture_object(texture),
                            submitted: retire_point(old(self).ring@),
                        },
                    )
                },
                Err(error) => {
                    &&& !names_live_slot(old(self).descriptors@, texture.handle.word())
                    &&& error == refusal(old(self).descriptors@, texture.handle.word())
                    &&& final(self).descriptors@ == old(self).descriptors@
                    &&& final(self).queue@ == old(self).queue@
                },
            },
    {
        match self.descriptors.free(texture.handle) {
            Err(error) => Err(error),
            Ok(()) => {
                self.ring.retire(
                    &mut self.queue,
                    NativeObject::Texture {
                        image: texture.image,
                        view: texture.view,
                        own_allocation: texture.allocation,
                    },
                );
                Ok(())
            },
        }
    }

    /// Wraps a buffer that was created natively. A buffer that shaders
    /// address gets the lowest free slot of the descriptor table; in a full
    /// table there is none, and nothing changes.
    pub fn create_buffer(&mut self, buffer: u64, allocation: u64, gpu_visible: bool) -> (result:
        Result<Buffer, TableError>)
        ensures
            final(self).queue@ == old(self).queue@,
            final(self).ring@ == old(self).ring@,
            final(self).descriptors@ == if gpu_visible {
                after_allocate(
                    old(self).descriptors@,
                    Descriptor { kind: ResourceKind::Buffer, reference: buffer },
                )
            } else {
                old(self).descriptors@
            },
            match result {
                Ok(wrapper) => {
                    &&& wrapper.buffer == buffer
                    &&& wrapper.allocation == allocation
                    &&& wrapper.handle is Some == gpu_visible
                    &&& match wrapper.handle {
                        Some(handle) => {
                            &&& is_lowest_free(
                                old(self).descriptors@,
                                slot_of32(handle.word()) as int,
                            )
                            &&& names_live_slot(final(self).descriptors@, handle.word())
                            &&& final(self).descriptors.pending_writes() == old(
                                self,
                            ).descriptors.pending_writes().push(
                                HeapWrite {
                                    slot: slot_of32(handle.word()),
                                    descriptor: Descriptor {
                                        kind: ResourceKind::Buffer,
                                        reference: buffer,
                                    },
                                },
                            )
                        },
                        None => final(self).descriptors.pending_writes() == old(
                            self,
                        ).descriptors.pending_writes(),
                    }
                },
                Err(error) => {
                    &&& gpu_visible
                    &&& error == TableError::Exhausted
                    &&& is_full(old(self).descriptors@)
                    &&& final(self).descriptors.pending_writes() == old(
                        self,
                    ).descriptors.pending_writes()
                },
            },
    {
        if !gpu_visible {
            return Ok(Buffer { buffer, allocation, handle: None });
        }
        let descriptor = Descriptor { kind: ResourceKind::Buffer, reference: buffer };
        match self.descriptors.allocate(descriptor) {
            Ok(handle) => Ok(Buffer { buffer, allocation, handle: Some(handle) }),
            Err(error) => Err(error),
        }
    }

    /// Ends a buffer whose last owner is gone: frees its slot, if it has
    /// one, at once, and queues the buffer with its allocation. A
    /// buffer whose handle is stale is refused and nothing changes.
    pub fn release_buffer(&mut self, buffer: Buffer) -> (result: Result<(), TableError>)
        ensures
            final(self).ring@ == old(self).ring@,
            final(self).descriptors.pending_writes() == old(self).descriptors.pending_writes(),
            match result {
                Ok(()) => {
                    &&& match buffer.handle {
                        Some(handle) => names_live_slot(old(self).descriptors@, handle.word())
                            && final(self).descriptors@ == after_free(
                            old(self).descriptors@,
                            slot_of32(handle.word()) as int,
                        ),
                        None => final(self).descriptors@ == old(self).descriptors@,
                    }
                    &&& final(self).queue@ == old(self).queue@.push(
                        PendingDestruction {
                            object: buffer_object(buffer),
                            submitted: retire_point(old(self).ring@),
                        },
                    )
                },
                Err(error) => {
                    &&& buffer.handle matches Some(handle)
                    &&& !names_live_slot(old(self).descriptors@, handle.word())
                    &&& error == refusal(old(self).descriptors@, handle.word())
                    &&& final(self).descriptors@ == old(self).descriptors@
                    &&& final(self).queue@ == old(self).queue@
                },
            },
    {
        match buffer.handle {
            Some(handle) => {
                match self.descriptors.free(handle) {
                    Err(error) => {
                        return Err(error);
                    },
                    Ok(()) => {},
                }
            },
            None => {},
        }
        self.ring.retire(
            &mut self.queue,
            NativeObject::Buffer { buffer: buffer.buffer, allocation: buffer.allocation },
        );
        Ok(())
    }

    /// Ends a native object that has no slot in the descriptor table, such
    /// as a pipeline or a semaphore: it is queued at the point at which it
    /// is safe.
    pub fn release_object(&mut self, object: u64, kind: ObjectKind)
        ensures
            final(self).ring@ == old(self).ring@,
            final(self).descriptors@ == old(self).descriptors@,
            final(self).descriptors.pending_writes() == old(self).descriptors.pending_writes(),
            final(self).queue@ == old(self).queue@.push(
                PendingDestruction {
                    object: NativeObject::Single { object, kind },
                    submitted: retire_point(old(self).ring@),
                },
            ),
    {
        self.ring.retire(&mut self.queue, NativeObject::Single { object, kind });
    }

    /// Drains the destruction queue at the timeline as far as the device
    /// has confirmed it. What is returned is to be destroyed now, in this
    /// order; the rest stays queued.
    pub fn drain(&mut self) -> (released: Vec<PendingDestruction>)
        ensures
            final(self).ring@ == old(self).ring@,
            final(self).descriptors@ == old(self).descriptors@,
            final(self).descriptors.pending_writes() == old(self).descriptors.pending_writes(),
            released@ == old(self).queue@.filter(due(old(self).ring@.completed)),
            final(self).queue@ == old(self).queue@.filter(not_due(old(self).ring@.completed)),
    {
        self.ring.drain(&mut self.queue)
    }
}

} // verus!
