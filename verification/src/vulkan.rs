//! The Vulkan backend's numbers: how the engine's neutral names, packed
//! versions, queue capabilities and result codes read in Vulkan's terms.

use vstd::prelude::*;
use crate::error::{error_code, NativeCode, RuntimeError};
use crate::frame_ring::{AcquireOutcome, PresentOutcome};
use crate::surface::{ColorSpace, PixelFormat, PresentMode};

verus! {

/// `ash::vk::api_version_major`: bits 22 to 28 of a packed version.
pub assume_specification[ ash::vk::api_version_major ](version: u32) -> (major: u32)
    ensures
        major == (version >> 22u32) & 0x7fu32,
;

/// `ash::vk::api_version_minor`: bits 12 to 21 of a packed version.
pub assume_specification[ ash::vk::api_version_minor ](version: u32) -> (minor: u32)
    ensures
        minor == (version >> 12u32) & 0x3ffu32,
;

/// `ash::vk::api_version_patch`: the low 12 bits of a packed version.
pub assume_specification[ ash::vk::api_version_patch ](version: u32) -> (patch: u32)
    ensures
        patch == version & 0xfffu32,
;

/// `ash::vk::QueueFlags::contains`, on the raw bits of both sides: whether
/// every bit of `wanted` is set in `flags`.
#[verifier::external_body]
fn queue_flags_contain(flags: u32, wanted: u32) -> (contained: bool)
    ensures
        contained == (flags & wanted == wanted),
{
    ash::vk::QueueFlags::from_raw(flags).contains(ash::vk::QueueFlags::from_raw(wanted))
}

/// A version of the API, unpacked.
#[derive(Clone, Copy, Debug, PartialEq, Eq, Structural)]
pub struct ApiVersion {
    pub major: u32,
    pub minor: u32,
    pub patch: u32,
}

/// The version that a packed word stands for: the patch in the low 12 bits,
/// the minor above it in 10 bits, the major above that in 7 bits.
pub open spec fn unpacked_version(version: u32) -> ApiVersion {
    ApiVersion {
        major: ((version as int / 0x40_0000) % 0x80) as u32,
        minor: ((version as int / 0x1000) % 0x400) as u32,
        patch: (version as int % 0x1000) as u32,
    }
}

proof fn lemma_version_fields(version: u32)
    by (bit_vector)
    ensures
        (version >> 22u32) & 0x7fu32 == (version / 0x40_0000u32) % 0x80u32,
        (version >> 12u32) & 0x3ffu32 == (version / 0x1000u32) % 0x400u32,
        version & 0xfffu32 == version % 0x1000u32,
{
}

/// Unpacks a packed API version.
pub fn unpack_version(version: u32) -> (unpacked: ApiVersion)
    ensures
        unpacked == unpacked_version(version),
{
    proof {
        lemma_version_fields(version);
    }
    ApiVersion {
        major: ash::vk::api_version_major(version),
        minor: ash::vk::api_version_minor(version),
        patch: ash::vk::api_version_patch(version),
    }
}

/// The bit of a queue family that renders.
pub const QUEUE_GRAPHICS: u32 = 0x1;

/// The bit of a queue family that computes.
pub const QUEUE_COMPUTE: u32 = 0x2;

/// The bit of a queue family that transfers.
pub const QUEUE_TRANSFER: u32 = 0x4;

/// The bit of a queue family that binds sparse memory.
pub const QUEUE_SPARSE_BINDING: u32 = 0x8;

/// Whether bit number `bit` of `flags` is set.
pub open spec fn bit_set(flags: u32, bit: nat) -> bool {
    (flags as int / vstd::arithmetic::power2::pow2(bit) as int) % 2 == 1
}

proof fn lemma_low_bits(flags: u32)
    by (bit_vector)
    ensures
        (flags & 1u32 == 1u32) == (flags % 2u32 == 1u32),
        (flags & 2u32 == 2u32) == ((flags / 2u32) % 2u32 == 1u32),
        (flags & 4u32 == 4u32) == ((flags / 4u32) % 2u32 == 1u32),
        (flags & 8u32 == 8u32) == ((flags / 8u32) % 2u32 == 1u32),
{
}

/// Whether a queue family with `flags` renders.
pub fn supports_graphics(flags: u32) -> (supported: bool)
    ensures
        supported == bit_set(flags, 0),
{
    proof {
        lemma_low_bits(flags);
        vstd::arithmetic::power2::lemma2_to64();
    }
    queue_flags_contain(flags, QUEUE_GRAPHICS)
}

/// Whether a queue family with `flags` computes.
pub fn supports_compute(flags: u32) -> (supported: bool)
    ensures
        supported == bit_set(flags, 1),
{
    proof {
        lemma_low_bits(flags);
        vstd::arithmetic::power2::lemma2_to64();
    }
    queue_flags_contain(flags, QUEUE_COMPUTE)
}

/// Whether a queue family with `flags` transfers.
pub fn supports_transfer(flags: u32) -> (supported: bool)
    ensures
        supported == bit_set(flags, 2),
{
    proof {
        lemma_low_bits(flags);
        vstd::arithmetic::power2::lemma2_to64();
    }
    queue_flags_contain(flags, QUEUE_TRANSFER)
}

/// Whether a queue family with `flags` binds sparse memory.
pub fn supports_sparse_binding(flags: u32) -> (supported: bool)
    ensures
        supported == bit_set(flags, 3),
{
    proof {
        lemma_low_bits(flags);
        vstd::arithmetic::power2::lemma2_to64();
    }
    queue_flags_contain(flags, QUEUE_SPARSE_BINDING)
}

/// The result code of a call that succeeded.
pub const SUCCESS: NativeCode = 0;

/// The result code of a call whose answer is not ready yet.
pub const NOT_READY: NativeCode = 1;

/// The result code of a wait that ran out of time.
pub const TIMEOUT: NativeCode = 2;

/// The result code of a call that lost the device.
pub const ERROR_DEVICE_LOST: NativeCode = -4;

/// The result code of a swapchain that still works but no longer fits the
/// surface well.
pub const SUBOPTIMAL: NativeCode = 1_000_001_003;

/// The result code of a swapchain that no longer fits the surface.
pub const ERROR_OUT_OF_DATE: NativeCode = -1_000_001_004;

/// The pixel format that a Vulkan format number stands for.
pub open spec fn pixel_format_of(raw: i32) -> PixelFormat {
    if raw == 37 {
        PixelFormat::Rgba8Unorm
    } else if raw == 43 {
        PixelFormat::Rgba8Srgb
    } else if raw == 44 {
        PixelFormat::Bgra8Unorm
    } else if raw == 50 {
        PixelFormat::Bgra8Srgb
    } else if raw == 126 {
        PixelFormat::Depth32Float
    } else {
        PixelFormat::Other(raw)
    }
}

/// The Vulkan number of a pixel format.
pub open spec fn pixel_format_number(format: PixelFormat) -> i32 {
    match format {
        PixelFormat::Rgba8Unorm => 37,
        PixelFormat::Rgba8Srgb => 43,
        PixelFormat::Bgra8Unorm => 44,
        PixelFormat::Bgra8Srgb => 50,
        PixelFormat::Depth32Float => 126,
        PixelFormat::Other(raw) => raw,
    }
}

/// The present mode that a Vulkan mode number stands for.
pub open spec fn present_mode_of(raw: i32) -> PresentMode {
    if raw == 0 {
        PresentMode::Immediate
    } else if raw == 1 {
        PresentMode::Mailbox
    } else if raw == 2 {
        PresentMode::Fifo
    } else if raw == 3 {
        PresentMode::FifoRelaxed
    } else {
        PresentMode::Other(raw)
    }
}

/// The Vulkan number of a present mode.
pub open spec fn present_mode_number(mode: PresentMode) -> i32 {
    match mode {
        PresentMode::Immediate => 0,
        PresentMode::Mailbox => 1,
        PresentMode::Fifo => 2,
        PresentMode::FifoRelaxed => 3,
        PresentMode::Other(raw) => raw,
    }
}

/// The colour space that a Vulkan colour-space number stands for.
pub open spec fn color_space_of(raw: i32) -> ColorSpace {
    if raw == 0 {
        ColorSpace::SrgbNonlinear
    } else {
        ColorSpace::Other(raw)
    }
}

/// The Vulkan number of a colour space.
pub open spec fn color_space_number(space: ColorSpace) -> i32 {
    match space {
        ColorSpace::SrgbNonlinear => 0,
        ColorSpace::Other(raw) => raw,
    }
}

/// What the answer to an image request means: the image on success and,
/// from a swapchain that fits less well, on the suboptimal code; no image,
/// and no failure either, on the out-of-date code and when the time ran
/// out or nothing was ready; else the failure, whatever its code, as the
/// failure of an image request with that code.
pub open spec fn acquire_outcome(code: NativeCode, image_index: u32) -> AcquireOutcome {
    if code == SUCCESS {
        AcquireOutcome::Image(image_index)
    } else if code == SUBOPTIMAL {
        AcquireOutcome::Suboptimal(image_index)
    } else if code == ERROR_OUT_OF_DATE {
        AcquireOutcome::OutOfDate
    } else if code == TIMEOUT || code == NOT_READY {
        AcquireOutcome::Timeout
    } else {
        AcquireOutcome::Failed(RuntimeError::AcquireImage(code))
    }
}

/// What the answer to a presentation means: presented on success and,
/// less well, on the suboptimal code; not presented, and no failure
/// either, on the out-of-date code; else the failure, whatever its code,
/// as the failure of a presentation with that code.
pub open spec fn present_outcome(code: NativeCode) -> PresentOutcome {
    if code == SUCCESS {
        PresentOutcome::Presented
    } else if code == SUBOPTIMAL {
        PresentOutcome::Suboptimal
    } else if code == ERROR_OUT_OF_DATE {
        PresentOutcome::OutOfDate
    } else {
        PresentOutcome::Failed(RuntimeError::QueuePresent(code))
    }
}

/// Names a Vulkan format number.
pub fn pixel_format_from_raw(raw: i32) -> (format: PixelFormat)
    ensures
        format == pixel_format_of(raw),
        pixel_format_number(format) == raw,
{
    match raw {
        37 => PixelFormat::Rgba8Unorm,
        43 => PixelFormat::Rgba8Srgb,
        44 => PixelFormat::Bgra8Unorm,
        50 => PixelFormat::Bgra8Srgb,
        126 => PixelFormat::Depth32Float,
        _ => PixelFormat::Other(raw),
    }
}

/// The Vulkan number of a pixel format.
pub fn pixel_format_to_raw(format: PixelFormat) -> (raw: i32)
    ensures
        raw == pixel_format_number(format),
{
    match format {
        PixelFormat::Rgba8Unorm => 37,
        PixelFormat::Rgba8Srgb => 43,
        PixelFormat::Bgra8Unorm => 44,
        PixelFormat::Bgra8Srgb => 50,
        PixelFormat::Depth32Float => 126,
        PixelFormat::Other(raw) => raw,
    }
}

/// Names a Vulkan present-mode number.
pub fn present_mode_from_raw(raw: i32) -> (mode: PresentMode)
    ensures
        mode == present_mode_of(raw),
        present_mode_number(mode) == raw,
{
    match raw {
        0 => PresentMode::Immediate,
        1 => PresentMode::Mailbox,
        2 => PresentMode::Fifo,
        3 => PresentMode::FifoRelaxed,
        _ => PresentMode::Other(raw),
    }
}

/// The Vulkan number of a present mode.
pub fn present_mode_to_raw(mode: PresentMode) -> (raw: i32)
    ensures
        raw == present_mode_number(mode),
{
    match mode {
        PresentMode::Immediate => 0,
        PresentMode::Mailbox => 1,
        PresentMode::Fifo => 2,
        PresentMode::FifoRelaxed => 3,
        PresentMode::Other(raw) => raw,
    }
}

/// Names a Vulkan colour-space number.
pub fn color_space_from_raw(raw: i32) -> (space: ColorSpace)
    ensures
        space == color_space_of(raw),
        color_space_number(space) == raw,
{
    if raw == 0 {
        ColorSpace::SrgbNonlinear
    } else {
        ColorSpace::Other(raw)
    }
}

/// The Vulkan number of a colour space.
pub fn color_space_to_raw(space: ColorSpace) -> (raw: i32)
    ensures
        raw == color_space_number(space),
{
    match space {
        ColorSpace::SrgbNonlinear => 0,
        ColorSpace::Other(raw) => raw,
    }
}

/// Reads the answer to an image request. Out-of-date and suboptimal
/// answers, and a timeout, are signals to rebuild or to retry, not
/// failures.
pub fn classify_acquire(code: NativeCode, image_index: u32) -> (outcome: AcquireOutcome)
    ensures
        outcome == acquire_outcome(code, image_index),
{
    if code == SUCCESS {
        AcquireOutcome::Image(image_index)
    } else if code == SUBOPTIMAL {
        AcquireOutcome::Suboptimal(image_index)
    } else if code == ERROR_OUT_OF_DATE {
        AcquireOutcome::OutOfDate
    } else if code == TIMEOUT || code == NOT_READY {
        AcquireOutcome::Timeout
    } else {
        AcquireOutcome::Failed(RuntimeError::AcquireImage(code))
    }
}

/// Reads the answer to a presentation.
pub fn classify_present(code: NativeCode) -> (outcome: PresentOutcome)
    ensures
        outcome == present_outcome(code),
{
    if code == SUCCESS {
        PresentOutcome::Presented
    } else if code == SUBOPTIMAL {
        PresentOutcome::Suboptimal
    } else if code == ERROR_OUT_OF_DATE {
        PresentOutcome::OutOfDate
    } else {
        PresentOutcome::Failed(RuntimeError::QueuePresent(code))
    }
}

/// The kinds of call whose failure is a runtime error.
#[derive(Clone, Copy, Debug, PartialEq, Eq, Structural)]
pub enum Operation {
    WaitSemaphore,
    WaitIdle,
    CommandBufferReset,
    CommandBufferBegin,
    CommandBufferEnd,
    QueueSubmit,
}

/// The runtime error that stands for code `code` of operation `operation`:
/// the operation's own error, which carries the code.
pub open spec fn runtime_error(operation: Operation, code: NativeCode) -> RuntimeError {
    match operation {
        Operation::WaitSemaphore => RuntimeError::WaitSemaphore(code),
        Operation::WaitIdle => RuntimeError::WaitIdle(code),
        Operation::CommandBufferReset => RuntimeError::CommandBufferReset(code),
        Operation::CommandBufferBegin => RuntimeError::CommandBufferBegin(code),
        Operation::CommandBufferEnd => RuntimeError::CommandBufferEnd(code),
        Operation::QueueSubmit => RuntimeError::QueueSubmit(code),
    }
}

/// Reads the result code of an operation on the device: success on the
/// success code, and on every other code the operation's own error with
/// that code, which reaches the caller as it is.
pub fn classify_operation(operation: Operation, code: NativeCode) -> (result: Result<
    (),
    RuntimeError,
>)
    ensures
        result == if code == SUCCESS {
            Ok::<(), RuntimeError>(())
        } else {
            Err::<(), RuntimeError>(runtime_error(operation, code))
        },
{
    if code == SUCCESS {
        Ok(())
    } else {
        Err(
            match operation {
                Operation::WaitSemaphore => RuntimeError::WaitSemaphore(code),
                Operation::WaitIdle => RuntimeError::WaitIdle(code),
                Operation::CommandBufferReset => RuntimeError::CommandBufferReset(code),
                Operation::CommandBufferBegin => RuntimeError::CommandBufferBegin(code),
                Operation::CommandBufferEnd => RuntimeError::CommandBufferEnd(code),
                Operation::QueueSubmit => RuntimeError::QueueSubmit(code),
            },
        )
    }
}

/// Whether a runtime error tells that the device is lost: its code is the
/// device-lost code, whichever operation met it. Nothing short of building
/// the whole context anew recovers from it.
pub fn is_device_lost(error: RuntimeError) -> (lost: bool)
    ensures
        lost == (error_code(error) == ERROR_DEVICE_LOST),
{
    error.code() == ERROR_DEVICE_LOST
}

} // verus!
