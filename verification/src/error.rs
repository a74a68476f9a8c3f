//! What can go wrong, in three families, and what is no error at all.

use vstd::prelude::*;

verus! {

/// The native result code of a backend call, as the backend numbers it.
pub type NativeCode = i32;

/// The kind of object whose creation failed.
#[derive(Clone, Copy, Debug, PartialEq, Eq, Structural)]
pub enum Subject {
    Buffer,
    Texture,
    ImageView,
    Sampler,
    VertexShaderModule,
    FragmentShaderModule,
    PipelineLayout,
    GraphicsPipeline,
    ComputePipeline,
    BinarySemaphore,
    TimelineSemaphore,
    CommandPool,
    CommandBuffer,
    DescriptorSet,
    Surface,
    Swapchain,
    LogicalDevice,
}

/// The creation of a native object failed: the backend's result code and
/// the kind of object. It is handed to the caller and never retried.
#[derive(Clone, Copy, Debug, PartialEq, Eq, Structural)]
pub struct CreationError {
    pub code: NativeCode,
    pub subject: Subject,
}

/// An operation on a device that exists failed with a native result code.
#[derive(Clone, Copy, Debug, PartialEq, Eq, Structural)]
pub enum RuntimeError {
    /// Waiting on the timeline failed.
    WaitSemaphore(NativeCode),
    /// Waiting for the device to fall idle failed.
    WaitIdle(NativeCode),
    /// Resetting the command recorder failed.
    CommandBufferReset(NativeCode),
    /// Beginning the command recorder failed.
    CommandBufferBegin(NativeCode),
    /// Ending the command recorder failed.
    CommandBufferEnd(NativeCode),
    /// Acquiring the next image failed.
    AcquireImage(NativeCode),
    /// The submission to the graphics queue failed.
    QueueSubmit(NativeCode),
    /// The presentation failed.
    QueuePresent(NativeCode),
}

/// The native code that a runtime error carries.
pub open spec fn error_code(error: RuntimeError) -> NativeCode {
    match error {
        RuntimeError::WaitSemaphore(code) => code,
        RuntimeError::WaitIdle(code) => code,
        RuntimeError::CommandBufferReset(code) => code,
        RuntimeError::CommandBufferBegin(code) => code,
        RuntimeError::CommandBufferEnd(code) => code,
        RuntimeError::AcquireImage(code) => code,
        RuntimeError::QueueSubmit(code) => code,
        RuntimeError::QueuePresent(code) => code,
    }
}

impl RuntimeError {
    /// The native code that the error carries.
    pub fn code(&self) -> (code: NativeCode)
        ensures
            code == error_code(*self),
    {
        match self {
            RuntimeError::WaitSemaphore(code) => *code,
            RuntimeError::WaitIdle(code) => *code,
            RuntimeError::CommandBufferReset(code) => *code,
            RuntimeError::CommandBufferBegin(code) => *code,
            RuntimeError::CommandBufferEnd(code) => *code,
            RuntimeError::AcquireImage(code) => *code,
            RuntimeError::QueueSubmit(code) => *code,
            RuntimeError::QueuePresent(code) => *code,
        }
    }
}

/// Nothing on this machine meets the minimum that rendering needs. It is
/// found at startup and is fatal there.
#[derive(Clone, Copy, Debug, PartialEq, Eq, Structural)]
pub enum SuitabilityError {
    /// No physical device is suitable.
    NoSuitableDevice,
    /// No queue family both renders and presents.
    NoGraphicsQueue,
    /// The surface offers no format.
    NoSurfaceFormat,
}

/// The words that name a subject in a message.
pub fn subject_name(subject: Subject) -> (name: &'static str)
    ensures
        name@ == subject_words(subject),
{
    match subject {
        Subject::Buffer => "buffer",
        Subject::Texture => "texture",
        Subject::ImageView => "image view",
        Subject::Sampler => "sampler",
        Subject::VertexShaderModule => "vertex shader module",
        Subject::FragmentShaderModule => "fragment shader module",
        Subject::PipelineLayout => "pipeline layout",
        Subject::GraphicsPipeline => "graphics pipeline",
        Subject::ComputePipeline => "compute pipeline",
        Subject::BinarySemaphore => "binary semaphore",
        Subject::TimelineSemaphore => "timeline semaphore",
        Subject::CommandPool => "command pool",
        Subject::CommandBuffer => "command buffer",
        Subject::DescriptorSet => "descriptor set",
        Subject::Surface => "surface",
        Subject::Swapchain => "swapchain",
        Subject::LogicalDevice => "logical device",
    }
}

/// The words that name a subject in a message.
pub open spec fn subject_words(subject: Subject) -> Seq<char> {
    match subject {
        Subject::Buffer => "buffer"@,
        Subject::Texture => "texture"@,
        Subject::ImageView => "image view"@,
        Subject::Sampler => "sampler"@,
        Subject::VertexShaderModule => "vertex shader module"@,
        Subject::FragmentShaderModule => "fragment shader module"@,
        Subject::PipelineLayout => "pipeline layout"@,
        Subject::GraphicsPipeline => "graphics pipeline"@,
        Subject::ComputePipeline => "compute pipeline"@,
        Subject::BinarySemaphore => "binary semaphore"@,
        Subject::TimelineSemaphore => "timeline semaphore"@,
        Subject::CommandPool => "command pool"@,
        Subject::CommandBuffer => "command buffer"@,
        Subject::DescriptorSet => "descriptor set"@,
        Subject::Surface => "surface"@,
        Subject::Swapchain => "swapchain"@,
        Subject::LogicalDevice => "logical device"@,
    }
}

/// What a creation call gave, as a result: the object on the success code,
/// else the creation error that carries the code and the subject.
pub fn creation_result(code: NativeCode, object: u64, subject: Subject) -> (result: Result<
    u64,
    CreationError,
>)
    ensures
        result == if code == 0 {
            Ok::<u64, CreationError>(object)
        } else {
            Err::<u64, CreationError>(CreationError { code, subject })
        },
{
    if code == 0 {
        Ok(object)
    } else {
        Err(CreationError { code, subject })
    }
}

} // verus!
