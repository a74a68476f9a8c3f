use ash::vk;
use hyper_rhi::commands::{access_to_raw, layout_to_raw, stage_to_raw, Access, ImageLayout, Stage};
use hyper_rhi::error::RuntimeError;
use hyper_rhi::frame_ring::{AcquireOutcome, PresentOutcome};
use hyper_rhi::memory::{buffer_usage_to_raw, BufferUsage};
use hyper_rhi::surface::{ColorSpace, PixelFormat, PresentMode};
use hyper_rhi::vulkan::{
    classify_acquire, classify_operation, classify_present, color_space_from_raw, is_device_lost,
    color_space_to_raw, pixel_format_from_raw, pixel_format_to_raw, present_mode_from_raw,
    present_mode_to_raw, supports_compute, supports_graphics, supports_sparse_binding,
    supports_transfer, unpack_version, ApiVersion, Operation, ERROR_DEVICE_LOST,
    ERROR_OUT_OF_DATE, NOT_READY, QUEUE_COMPUTE, QUEUE_GRAPHICS, QUEUE_SPARSE_BINDING,
    QUEUE_TRANSFER, SUBOPTIMAL, SUCCESS, TIMEOUT,
};

#[test]
fn version_unpacks_into_its_three_numbers() {
    assert_eq!(
        unpack_version(vk::make_api_version(0, 1, 3, 281)),
        ApiVersion { major: 1, minor: 3, patch: 281 }
    );
    assert_eq!(unpack_version(0), ApiVersion { major: 0, minor: 0, patch: 0 });
    assert_eq!(
        unpack_version(u32::MAX),
        ApiVersion { major: 127, minor: 1023, patch: 4095 }
    );
    assert_eq!(
        unpack_version((5 << 22) | (6 << 12) | 7),
        ApiVersion { major: 5, minor: 6, patch: 7 }
    );
    // The variant above the major number is left out.
    assert_eq!(
        unpack_version(vk::make_api_version(3, 1, 2, 3)),
        ApiVersion { major: 1, minor: 2, patch: 3 }
    );
}

#[test]
fn queue_capabilities_are_read_bit_by_bit() {
    assert!(supports_graphics(0b0001));
    assert!(!supports_graphics(0b1110));
    assert!(supports_compute(0b0010));
    assert!(!supports_compute(0b1101));
    assert!(supports_transfer(0b0100));
    assert!(!supports_transfer(0b1011));
    assert!(supports_sparse_binding(0b1000));
    assert!(!supports_sparse_binding(0b0111));
    assert!(supports_graphics(u32::MAX));
    assert!(!supports_graphics(0));
    assert!(supports_graphics(0b0101) && supports_transfer(0b0101) && !supports_compute(0b0101));
}

#[test]
fn queue_bits_are_those_of_the_backend() {
    assert_eq!(QUEUE_GRAPHICS, vk::QueueFlags::GRAPHICS.as_raw());
    assert_eq!(QUEUE_COMPUTE, vk::QueueFlags::COMPUTE.as_raw());
    assert_eq!(QUEUE_TRANSFER, vk::QueueFlags::TRANSFER.as_raw());
    assert_eq!(QUEUE_SPARSE_BINDING, vk::QueueFlags::SPARSE_BINDING.as_raw());
}

#[test]
fn result_codes_are_those_of_the_backend() {
    assert_eq!(SUCCESS, vk::Result::SUCCESS.as_raw());
    assert_eq!(NOT_READY, vk::Result::NOT_READY.as_raw());
    assert_eq!(TIMEOUT, vk::Result::TIMEOUT.as_raw());
    assert_eq!(ERROR_DEVICE_LOST, vk::Result::ERROR_DEVICE_LOST.as_raw());
    assert_eq!(SUBOPTIMAL, vk::Result::SUBOPTIMAL_KHR.as_raw());
    assert_eq!(ERROR_OUT_OF_DATE, vk::Result::ERROR_OUT_OF_DATE_KHR.as_raw());
}

#[test]
fn format_numbers_are_those_of_the_backend() {
    assert_eq!(pixel_format_to_raw(PixelFormat::Rgba8Unorm), vk::Format::R8G8B8A8_UNORM.as_raw());
    assert_eq!(pixel_format_to_raw(PixelFormat::Rgba8Srgb), vk::Format::R8G8B8A8_SRGB.as_raw());
    assert_eq!(pixel_format_to_raw(PixelFormat::Bgra8Unorm), vk::Format::B8G8R8A8_UNORM.as_raw());
    assert_eq!(pixel_format_to_raw(PixelFormat::Bgra8Srgb), vk::Format::B8G8R8A8_SRGB.as_raw());
    assert_eq!(pixel_format_to_raw(PixelFormat::Depth32Float), vk::Format::D32_SFLOAT.as_raw());
    assert_eq!(pixel_format_to_raw(PixelFormat::Other(9)), 9);
    assert_eq!(pixel_format_from_raw(50), PixelFormat::Bgra8Srgb);
    assert_eq!(pixel_format_from_raw(44), PixelFormat::Bgra8Unorm);
    assert_eq!(pixel_format_from_raw(1), PixelFormat::Other(1));
    for raw in [-1, 0, 37, 43, 44, 50, 126, 127, i32::MAX] {
        assert_eq!(pixel_format_to_raw(pixel_format_from_raw(raw)), raw);
    }
}

#[test]
fn present_mode_numbers_are_those_of_the_backend() {
    assert_eq!(present_mode_to_raw(PresentMode::Immediate), vk::PresentModeKHR::IMMEDIATE.as_raw());
    assert_eq!(present_mode_to_raw(PresentMode::Mailbox), vk::PresentModeKHR::MAILBOX.as_raw());
    assert_eq!(present_mode_to_raw(PresentMode::Fifo), vk::PresentModeKHR::FIFO.as_raw());
    assert_eq!(
        present_mode_to_raw(PresentMode::FifoRelaxed),
        vk::PresentModeKHR::FIFO_RELAXED.as_raw()
    );
    assert_eq!(present_mode_from_raw(1), PresentMode::Mailbox);
    assert_eq!(present_mode_from_raw(1000111000), PresentMode::Other(1000111000));
    for raw in [-5, 0, 1, 2, 3, 4] {
        assert_eq!(present_mode_to_raw(present_mode_from_raw(raw)), raw);
    }
}

#[test]
fn colour_space_and_layout_numbers_are_those_of_the_backend() {
    assert_eq!(
        color_space_to_raw(ColorSpace::SrgbNonlinear),
        vk::ColorSpaceKHR::SRGB_NONLINEAR.as_raw()
    );
    assert_eq!(color_space_from_raw(0), ColorSpace::SrgbNonlinear);
    assert_eq!(color_space_from_raw(1000104001), ColorSpace::Other(1000104001));
    assert_eq!(color_space_to_raw(ColorSpace::Other(3)), 3);
    assert_eq!(layout_to_raw(ImageLayout::Undefined), vk::ImageLayout::UNDEFINED.as_raw());
    assert_eq!(
        layout_to_raw(ImageLayout::ColorAttachment),
        vk::ImageLayout::COLOR_ATTACHMENT_OPTIMAL.as_raw()
    );
    assert_eq!(
        layout_to_raw(ImageLayout::PresentSource),
        vk::ImageLayout::PRESENT_SRC_KHR.as_raw()
    );
}

#[test]
fn stage_and_access_bits_are_those_of_the_backend() {
    assert_eq!(stage_to_raw(Stage::TopOfPipe), vk::PipelineStageFlags2::TOP_OF_PIPE.as_raw());
    assert_eq!(
        stage_to_raw(Stage::ColorAttachmentOutput),
        vk::PipelineStageFlags2::COLOR_ATTACHMENT_OUTPUT.as_raw()
    );
    assert_eq!(stage_to_raw(Stage::BottomOfPipe), vk::PipelineStageFlags2::BOTTOM_OF_PIPE.as_raw());
    assert_eq!(access_to_raw(Access::Nothing), vk::AccessFlags2::NONE.as_raw());
    assert_eq!(
        access_to_raw(Access::ColorAttachmentWrite),
        vk::AccessFlags2::COLOR_ATTACHMENT_WRITE.as_raw()
    );
}

#[test]
fn buffer_usage_bits_are_those_of_the_backend() {
    let usage = BufferUsage {
        transfer_source: true,
        transfer_destination: true,
        storage: true,
        index: true,
        vertex: true,
    };
    let native = vk::BufferUsageFlags::TRANSFER_SRC
        | vk::BufferUsageFlags::TRANSFER_DST
        | vk::BufferUsageFlags::STORAGE_BUFFER
        | vk::BufferUsageFlags::INDEX_BUFFER
        | vk::BufferUsageFlags::VERTEX_BUFFER;
    assert_eq!(buffer_usage_to_raw(usage), native.as_raw());
}

#[test]
fn acquire_answers_are_signals_or_failures() {
    assert_eq!(classify_acquire(SUCCESS, 2), AcquireOutcome::Image(2));
    assert_eq!(classify_acquire(SUBOPTIMAL, 1), AcquireOutcome::Suboptimal(1));
    assert_eq!(classify_acquire(ERROR_OUT_OF_DATE, 0), AcquireOutcome::OutOfDate);
    assert_eq!(classify_acquire(TIMEOUT, 0), AcquireOutcome::Timeout);
    assert_eq!(classify_acquire(NOT_READY, 0), AcquireOutcome::Timeout);
    assert_eq!(
        classify_acquire(ERROR_DEVICE_LOST, 0),
        AcquireOutcome::Failed(RuntimeError::AcquireImage(-4))
    );
    assert_eq!(
        classify_acquire(-1, 0),
        AcquireOutcome::Failed(RuntimeError::AcquireImage(-1))
    );
}

#[test]
fn present_answers_are_signals_or_failures() {
    assert_eq!(classify_present(SUCCESS), PresentOutcome::Presented);
    assert_eq!(classify_present(SUBOPTIMAL), PresentOutcome::Suboptimal);
    assert_eq!(classify_present(ERROR_OUT_OF_DATE), PresentOutcome::OutOfDate);
    assert_eq!(
        classify_present(ERROR_DEVICE_LOST),
        PresentOutcome::Failed(RuntimeError::QueuePresent(-4))
    );
    assert_eq!(
        classify_present(-1_000_000_000),
        PresentOutcome::Failed(RuntimeError::QueuePresent(-1_000_000_000))
    );
}

#[test]
fn operation_failures_carry_their_code() {
    assert_eq!(classify_operation(Operation::WaitSemaphore, SUCCESS), Ok(()));
    assert_eq!(
        classify_operation(Operation::WaitSemaphore, -1),
        Err(RuntimeError::WaitSemaphore(-1))
    );
    assert_eq!(classify_operation(Operation::WaitIdle, -2), Err(RuntimeError::WaitIdle(-2)));
    assert_eq!(
        classify_operation(Operation::CommandBufferReset, -1),
        Err(RuntimeError::CommandBufferReset(-1))
    );
    assert_eq!(
        classify_operation(Operation::CommandBufferBegin, -2),
        Err(RuntimeError::CommandBufferBegin(-2))
    );
    assert_eq!(
        classify_operation(Operation::CommandBufferEnd, -1),
        Err(RuntimeError::CommandBufferEnd(-1))
    );
    assert_eq!(classify_operation(Operation::QueueSubmit, 2), Err(RuntimeError::QueueSubmit(2)));
    assert_eq!(
        classify_operation(Operation::QueueSubmit, ERROR_DEVICE_LOST),
        Err(RuntimeError::QueueSubmit(-4))
    );
}

#[test]
fn failed_wait_keeps_its_operation_and_code_even_when_the_device_is_lost() {
    assert_eq!(
        classify_operation(Operation::WaitSemaphore, ERROR_DEVICE_LOST),
        Err(RuntimeError::WaitSemaphore(-4))
    );
    assert_eq!(
        classify_operation(Operation::WaitIdle, ERROR_DEVICE_LOST),
        Err(RuntimeError::WaitIdle(-4))
    );
    for code in [-1000, -4, -1, 1, 2, 5, i32::MIN, i32::MAX] {
        assert_eq!(
            classify_operation(Operation::WaitSemaphore, code),
            Err(RuntimeError::WaitSemaphore(code))
        );
    }
}

#[test]
fn device_loss_is_told_by_the_code() {
    assert!(is_device_lost(RuntimeError::WaitSemaphore(-4)));
    assert!(is_device_lost(RuntimeError::WaitIdle(ERROR_DEVICE_LOST)));
    assert!(is_device_lost(RuntimeError::QueueSubmit(-4)));
    assert!(is_device_lost(RuntimeError::QueuePresent(-4)));
    assert!(is_device_lost(RuntimeError::AcquireImage(-4)));
    assert!(is_device_lost(RuntimeError::CommandBufferBegin(-4)));
    assert!(!is_device_lost(RuntimeError::WaitSemaphore(-1)));
    assert!(!is_device_lost(RuntimeError::QueueSubmit(4)));
    assert!(!is_device_lost(RuntimeError::CommandBufferEnd(-2)));
    assert!(!is_device_lost(RuntimeError::CommandBufferReset(0)));
    assert_eq!(RuntimeError::WaitIdle(-7).code(), -7);
    assert_eq!(RuntimeError::CommandBufferReset(3).code(), 3);
}
