use hyper_rhi::descriptor_table::{Descriptor, HeapWrite, ResourceKind, TableError};
use hyper_rhi::destruction_queue::{NativeObject, ObjectKind, PendingDestruction};
use hyper_rhi::frame_ring::{AcquireOutcome, BeginStep, FrameObjects, RingError};
use hyper_rhi::handle::Handle32;
use hyper_rhi::resources::{RenderDevice, SetupError};

fn frames(count: u64) -> Vec<FrameObjects> {
    (0..count)
        .map(|slot| FrameObjects {
            command_recorder: 10 + slot,
            image_acquired: 20 + slot,
            render_complete: 30 + slot,
        })
        .collect()
}

#[test]
fn device_tables_are_set_up_together() {
    let device = RenderDevice::new(16, frames(2)).unwrap();
    assert_eq!(device.descriptors.capacity(), 16);
    assert!(device.queue.is_empty());
    assert_eq!(device.ring.frames_in_flight(), 2);
    assert!(matches!(
        RenderDevice::new(3, frames(2)),
        Err(SetupError::Table(TableError::InvalidCapacity))
    ));
    assert!(matches!(
        RenderDevice::new(4, Vec::new()),
        Err(SetupError::Ring(RingError::NoSlots))
    ));
}

#[test]
fn dropped_texture_outlives_the_frame_that_uses_it() {
    let mut device = RenderDevice::new(16, frames(2)).unwrap();
    // The texture is created and gets its slot.
    let texture = device.create_texture(0xA1, 0xB1, Some(0xC1)).unwrap();
    assert_eq!(texture.handle.handle(), 0);
    assert_eq!(
        device.descriptors.get(texture.handle),
        Ok(Descriptor { kind: ResourceKind::Texture, reference: 0xB1 })
    );
    // One frame is recorded that refers to the texture by its handle, and submitted.
    assert_eq!(device.ring.begin(0), Ok(BeginStep::Acquire { slot: 0, image_acquired: 20 }));
    device.ring.acquired(AcquireOutcome::Image(0)).unwrap();
    let referenced = texture.handle.value();
    device.ring.end().unwrap();
    let submit = device.ring.submit().unwrap();
    assert_eq!(submit.signal, 0);
    // The wrapper is dropped before the frame is confirmed complete.
    assert_eq!(device.release_texture(texture), Ok(()));
    assert_eq!(device.descriptors.get(texture.handle), Err(TableError::Stale));
    assert_eq!(device.queue.pending_count(), 1);
    // A drain before the completion destroys nothing: the image still exists.
    assert!(device.drain().is_empty());
    assert_eq!(device.queue.pending_count(), 1);
    // The frame completes; the next drain hands the texture over.
    device.ring.observe_completed(Some(submit.signal)).unwrap();
    let released = device.drain();
    assert_eq!(
        released,
        vec![PendingDestruction {
            object: NativeObject::Texture { image: 0xA1, view: 0xB1, own_allocation: Some(0xC1) },
            submitted: Some(0),
        }]
    );
    assert_eq!(device.queue.pending_count(), 0);
    assert_eq!(referenced, texture.handle.value());
}

#[test]
fn texture_dropped_while_its_frame_records_outlives_that_frame() {
    let mut device = RenderDevice::new(16, frames(2)).unwrap();
    let texture = device.create_texture(1, 2, None).unwrap();
    device.ring.begin(0).unwrap();
    device.ring.acquired(AcquireOutcome::Image(0)).unwrap();
    device.release_texture(texture).unwrap();
    assert_eq!(device.queue.get(0).unwrap().submitted, Some(0));
    assert!(device.drain().is_empty());
    device.ring.end().unwrap();
    device.ring.submit().unwrap();
    assert!(device.drain().is_empty());
    assert_eq!(device.queue.pending_count(), 1);
    device.ring.observe_completed(Some(0)).unwrap();
    assert_eq!(device.drain().len(), 1);
    assert_eq!(device.queue.pending_count(), 0);
}

#[test]
fn texture_dropped_before_any_frame_goes_at_the_first_drain() {
    let mut device = RenderDevice::new(2, frames(2)).unwrap();
    let texture = device.create_texture(1, 2, None).unwrap();
    device.release_texture(texture).unwrap();
    assert_eq!(device.queue.pending_count(), 1);
    assert_eq!(device.queue.get(0).unwrap().submitted, None);
    assert_eq!(
        device.drain(),
        vec![PendingDestruction {
            object: NativeObject::Texture { image: 1, view: 2, own_allocation: None },
            submitted: None,
        }]
    );
}

#[test]
fn texture_is_released_once() {
    let mut device = RenderDevice::new(2, frames(2)).unwrap();
    let texture = device.create_texture(1, 2, None).unwrap();
    assert_eq!(device.release_texture(texture), Ok(()));
    assert_eq!(device.release_texture(texture), Err(TableError::Stale));
    assert_eq!(device.queue.pending_count(), 1);
}

#[test]
fn heap_writes_are_noted_by_creation_and_by_nothing_else() {
    let mut device = RenderDevice::new(4, frames(2)).unwrap();
    let texture = device.create_texture(1, 2, None).unwrap();
    let plain = device.create_buffer(3, 4, false).unwrap();
    let visible = device.create_buffer(5, 6, true).unwrap();
    device.release_object(7, ObjectKind::Sampler);
    device.release_texture(texture).unwrap();
    device.release_buffer(plain).unwrap();
    device.release_buffer(visible).unwrap();
    device.drain();
    assert_eq!(
        device.descriptors.flush_writes(),
        vec![
            HeapWrite {
                slot: 0,
                descriptor: Descriptor { kind: ResourceKind::Texture, reference: 2 }
            },
            HeapWrite {
                slot: 1,
                descriptor: Descriptor { kind: ResourceKind::Buffer, reference: 5 }
            },
        ]
    );
    let mut full = RenderDevice::new(1, frames(2)).unwrap();
    full.create_texture(1, 2, None).unwrap();
    assert_eq!(full.descriptors.flush_writes().len(), 1);
    assert!(full.create_texture(3, 4, None).is_err());
    assert!(full.create_buffer(5, 6, true).is_err());
    assert!(full.descriptors.flush_writes().is_empty());
}

#[test]
fn full_table_refuses_the_texture() {
    let mut device = RenderDevice::new(1, frames(2)).unwrap();
    device.create_texture(1, 2, None).unwrap();
    assert_eq!(device.create_texture(3, 4, None), Err(TableError::Exhausted));
    assert_eq!(device.create_buffer(5, 6, true), Err(TableError::Exhausted));
    assert!(device.create_buffer(5, 6, false).is_ok());
}

#[test]
fn buffers_take_a_slot_only_when_shaders_address_them() {
    let mut device = RenderDevice::new(4, frames(2)).unwrap();
    let plain = device.create_buffer(10, 11, false).unwrap();
    assert_eq!(plain.handle, None);
    let visible = device.create_buffer(20, 21, true).unwrap();
    let handle = visible.handle.unwrap();
    assert_eq!(handle.handle(), 0);
    assert_eq!(
        device.descriptors.get(handle),
        Ok(Descriptor { kind: ResourceKind::Buffer, reference: 20 })
    );
    device.release_buffer(visible).unwrap();
    assert!(!device.descriptors.is_valid(handle));
    assert_eq!(device.release_buffer(visible), Err(TableError::Stale));
    device.release_buffer(plain).unwrap();
    let released = device.drain();
    assert_eq!(
        released.iter().map(|entry| entry.object).collect::<Vec<_>>(),
        vec![
            NativeObject::Buffer { buffer: 20, allocation: 21 },
            NativeObject::Buffer { buffer: 10, allocation: 11 },
        ]
    );
}

#[test]
fn pipeline_is_queued_like_any_object() {
    let mut device = RenderDevice::new(4, frames(2)).unwrap();
    device.release_object(99, ObjectKind::GraphicsPipeline);
    assert_eq!(
        device.queue.get(0),
        Some(PendingDestruction {
            object: NativeObject::Single { object: 99, kind: ObjectKind::GraphicsPipeline },
            submitted: None,
        })
    );
}
