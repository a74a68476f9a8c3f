//! The backend-neutral description of a graphics pipeline, and how it
//! reads in the numbers of the backend that is to build it.

use vstd::prelude::*;
use crate::surface::PixelFormat;
use crate::vulkan::pixel_format_number;

verus! {

/// The native interfaces that a backend drives.
#[derive(Clone, Copy, Debug, PartialEq, Eq, Structural)]
pub enum Backend {
    Vulkan,
    D3d12,
}

/// A native object with the backend that made it. Objects of different
/// backends never mix: the tag is tested once, where a call enters the
/// backend.
#[derive(Clone, Copy, Debug, PartialEq, Eq, Structural)]
pub struct BackendObject {
    pub backend: Backend,
    pub raw: u64,
}

/// How vertices make primitives.
#[derive(Clone, Copy, Debug, PartialEq, Eq, Structural)]
pub enum Topology {
    PointList,
    LineList,
    TriangleList,
}

/// Whether polygons are filled or drawn as their edges.
#[derive(Clone, Copy, Debug, PartialEq, Eq, Structural)]
pub enum PolygonMode {
    Fill,
    Line,
}

/// Which faces are left out.
#[derive(Clone, Copy, Debug, PartialEq, Eq, Structural)]
pub enum CullMode {
    Nothing,
    Front,
    Back,
}

/// The winding of the faces that count as front.
#[derive(Clone, Copy, Debug, PartialEq, Eq, Structural)]
pub enum FrontFace {
    CounterClockwise,
    Clockwise,
}

/// The comparison of the depth test.
#[derive(Clone, Copy, Debug, PartialEq, Eq, Structural)]
pub enum CompareOp {
    Never,
    Less,
    Equal,
    LessOrEqual,
    Greater,
    NotEqual,
    GreaterOrEqual,
    Always,
}

/// The fixed-function state of a graphics pipeline.
#[derive(Clone, Copy, Debug, PartialEq, Eq, Structural)]
pub struct PipelineState {
    pub topology: Topology,
    pub polygon_mode: PolygonMode,
    pub cull_mode: CullMode,
    pub front_face: FrontFace,
    pub depth_test: bool,
    pub depth_write: bool,
    pub depth_compare: CompareOp,
    pub blend: bool,
    pub color_format: PixelFormat,
    pub depth_format: Option<PixelFormat>,
}

/// What a graphics pipeline is made from.
#[derive(Clone, Copy, Debug)]
pub struct GraphicsPipelineDescriptor<'a> {
    /// The name by which the native object is tagged for debugging, where
    /// one is given.
    pub label: Option<&'a str>,
    pub layout: BackendObject,
    pub vertex_shader: BackendObject,
    pub fragment_shader: BackendObject,
    pub state: PipelineState,
}

/// The fixed-function state in a backend's numbers.
#[derive(Clone, Copy, Debug, PartialEq, Eq, Structural)]
pub struct NativePipelineState {
    pub topology: i32,
    pub fill_mode: i32,
    pub cull_mode: i32,
    pub front_counter_clockwise: bool,
    pub depth_test: bool,
    pub depth_write: bool,
    pub depth_compare: i32,
    pub blend: bool,
    pub color_format: i32,
    pub depth_format: Option<i32>,
}

/// What the backend is asked to build.
#[derive(Clone, Copy, Debug)]
pub struct PipelineRequest<'a> {
    pub label: Option<&'a str>,
    pub layout: u64,
    pub vertex_shader: u64,
    pub fragment_shader: u64,
    pub state: NativePipelineState,
}

/// A graphics pipeline's wrapper: the native pipeline and the layout that
/// it was built with.
#[derive(Clone, Copy, Debug, PartialEq, Eq, Structural)]
pub struct GraphicsPipeline {
    pub raw: BackendObject,
    pub layout: BackendObject,
}

/// The number of a pixel format in a backend.
pub open spec fn format_number(backend: Backend, format: PixelFormat) -> i32 {
    match backend {
        Backend::Vulkan => pixel_format_number(format),
        Backend::D3d12 => match format {
            PixelFormat::Rgba8Unorm => 28,
            PixelFormat::Rgba8Srgb => 29,
            PixelFormat::Bgra8Unorm => 87,
            PixelFormat::Bgra8Srgb => 91,
            PixelFormat::Depth32Float => 40,
            PixelFormat::Other(raw) => raw,
        },
    }
}

/// The number of a topology in a backend. Direct3D numbers the kind of
/// primitive, Vulkan the list of it.
pub open spec fn topology_number(backend: Backend, topology: Topology) -> i32 {
    match (backend, topology) {
        (Backend::Vulkan, Topology::PointList) => 0,
        (Backend::Vulkan, Topology::LineList) => 1,
        (Backend::Vulkan, Topology::TriangleList) => 3,
        (Backend::D3d12, Topology::PointList) => 1,
        (Backend::D3d12, Topology::LineList) => 2,
        (Backend::D3d12, Topology::TriangleList) => 3,
    }
}

/// The number of a polygon mode in a backend.
pub open spec fn fill_mode_number(backend: Backend, mode: PolygonMode) -> i32 {
    match (backend, mode) {
        (Backend::Vulkan, PolygonMode::Fill) => 0,
        (Backend::Vulkan, PolygonMode::Line) => 1,
        (Backend::D3d12, PolygonMode::Fill) => 3,
        (Backend::D3d12, PolygonMode::Line) => 2,
    }
}

/// The number of a cull mode in a backend.
pub open spec fn cull_mode_number(backend: Backend, mode: CullMode) -> i32 {
    match (backend, mode) {
        (Backend::Vulkan, CullMode::Nothing) => 0,
        (Backend::Vulkan, CullMode::Front) => 1,
        (Backend::Vulkan, CullMode::Back) => 2,
        (Backend::D3d12, CullMode::Nothing) => 1,
        (Backend::D3d12, CullMode::Front) => 2,
        (Backend::D3d12, CullMode::Back) => 3,
    }
}

/// The place of a comparison in the order in which both backends list
/// them, from zero.
pub open spec fn compare_rank(op: CompareOp) -> i32 {
    match op {
        CompareOp::Never => 0,
        CompareOp::Less => 1,
        CompareOp::Equal => 2,
        CompareOp::LessOrEqual => 3,
        CompareOp::Greater => 4,
        CompareOp::NotEqual => 5,
        CompareOp::GreaterOrEqual => 6,
        CompareOp::Always => 7,
    }
}

/// The number of a comparison in a backend: Vulkan counts them from zero,
/// Direct3D from one.
pub open spec fn compare_number(backend: Backend, op: CompareOp) -> i32 {
    match backend {
        Backend::Vulkan => compare_rank(op),
        Backend::D3d12 => (compare_rank(op) + 1) as i32,
    }
}

/// The fixed-function state in the numbers of `backend`.
pub open spec fn native_state(backend: Backend, state: PipelineState) -> NativePipelineState {
    NativePipelineState {
        topology: topology_number(backend, state.topology),
        fill_mode: fill_mode_number(backend, state.polygon_mode),
        cull_mode: cull_mode_number(backend, state.cull_mode),
        front_counter_clockwise: state.front_face == FrontFace::CounterClockwise,
        depth_test: state.depth_test,
        depth_write: state.depth_write,
        depth_compare: compare_number(backend, state.depth_compare),
        blend: state.blend,
        color_format: format_number(backend, state.color_format),
        depth_format: match state.depth_format {
            Some(format) => Some(format_number(backend, format)),
            None => None,
        },
    }
}

/// The first of the descriptor's objects, in the order layout, vertex
/// shader, fragment shader, that is not of `backend`.
pub open spec fn foreign_object(backend: Backend, descriptor: GraphicsPipelineDescriptor) -> Option<
    BackendObject,
> {
    if descriptor.layout.backend != backend {
        Some(descriptor.layout)
    } else if descriptor.vertex_shader.backend != backend {
        Some(descriptor.vertex_shader)
    } else if descriptor.fragment_shader.backend != backend {
        Some(descriptor.fragment_shader)
    } else {
        None
    }
}

/// Finds the first of the descriptor's objects, in the order layout,
/// vertex shader, fragment shader, that is not of `backend`; none where all
/// three are. This is the one test at the boundary: to hand an object of
/// another backend on is an error of the program, not of its input.
pub fn find_foreign_object(backend: Backend, descriptor: &GraphicsPipelineDescriptor<'_>) -> (found:
    Option<BackendObject>)
    ensures
        found == foreign_object(backend, *descriptor),
{
    if descriptor.layout.backend != backend {
        Some(descriptor.layout)
    } else if descriptor.vertex_shader.backend != backend {
        Some(descriptor.vertex_shader)
    } else if descriptor.fragment_shader.backend != backend {
        Some(descriptor.fragment_shader)
    } else {
        None
    }
}

/// The native object behind a tagged one, for the backend that made it and
/// is about to use it.
pub fn expect_backend(object: BackendObject, backend: Backend) -> (raw: u64)
    requires
        object.backend == backend,
    ensures
        raw == object.raw,
{
    object.raw
}

fn format_to_native(backend: Backend, format: PixelFormat) -> (number: i32)
    ensures
        number == format_number(backend, format),
{
    match backend {
        Backend::Vulkan => crate::vulkan::pixel_format_to_raw(format),
        Backend::D3d12 => match format {
            PixelFormat::Rgba8Unorm => 28,
            PixelFormat::Rgba8Srgb => 29,
            PixelFormat::Bgra8Unorm => 87,
            PixelFormat::Bgra8Srgb => 91,
            PixelFormat::Depth32Float => 40,
            PixelFormat::Other(raw) => raw,
        },
    }
}

fn compare_to_native(backend: Backend, op: CompareOp) -> (number: i32)
    ensures
        number == compare_number(backend, op),
{
    let rank: i32 = match op {
        CompareOp::Never => 0,
        CompareOp::Less => 1,
        CompareOp::Equal => 2,
        CompareOp::LessOrEqual => 3,
        CompareOp::Greater => 4,
        CompareOp::NotEqual => 5,
        CompareOp::GreaterOrEqual => 6,
        CompareOp::Always => 7,
    };
    match backend {
        Backend::Vulkan => rank,
        Backend::D3d12 => rank + 1,
    }
}

/// The fixed-function state in the numbers of `backend`.
pub fn translate_state(backend: Backend, state: &PipelineState) -> (native: NativePipelineState)
    ensures
        native == native_state(backend, *state),
{
    let topology: i32 = match (backend, state.topology) {
        (Backend::Vulkan, Topology::PointList) => 0,
        (Backend::Vulkan, Topology::LineList) => 1,
        (Backend::Vulkan, Topology::TriangleList) => 3,
        (Backend::D3d12, Topology::PointList) => 1,
        (Backend::D3d12, Topology::LineList) => 2,
        (Backend::D3d12, Topology::TriangleList) => 3,
    };
    let fill_mode: i32 = match (backend, state.polygon_mode) {
        (Backend::Vulkan, PolygonMode::Fill) => 0,
        (Backend::Vulkan, PolygonMode::Line) => 1,
        (Backend::D3d12, PolygonMode::Fill) => 3,
        (Backend::D3d12, PolygonMode::Line) => 2,
    };
    let cull_mode: i32 = match (backend, state.cull_mode) {
        (Backend::Vulkan, CullMode::Nothing) => 0,
        (Backend::Vulkan, CullMode::Front) => 1,
        (Backend::Vulkan, CullMode::Back) => 2,
        (Backend::D3d12, CullMode::Nothing) => 1,
        (Backend::D3d12, CullMode::Front) => 2,
        (Backend::D3d12, CullMode::Back) => 3,
    };
    NativePipelineState {
        topology,
        fill_mode,
        cull_mode,
        front_counter_clockwise: state.front_face == FrontFace::CounterClockwise,
        depth_test: state.depth_test,
        depth_write: state.depth_write,
        depth_compare: compare_to_native(backend, state.depth_compare),
        blend: state.blend,
        color_format: format_to_native(backend, state.color_format),
        depth_format: match state.depth_format {
            Some(format) => Some(format_to_native(backend, format)),
            None => None,
        },
    }
}

/// Puts a pipeline's description in the terms of `backend`: the native
/// objects behind the layout and the two shaders, the state in the
/// backend's numbers, and the label as it is. The three objects are of
/// that backend.
pub fn translate_pipeline<'a>(backend: Backend, descriptor: &GraphicsPipelineDescriptor<'a>) -> (request:
    PipelineRequest<'a>)
    requires
        foreign_object(backend, *descriptor) is None,
    ensures
        request.label == descriptor.label,
        request.layout == descriptor.layout.raw,
        request.vertex_shader == descriptor.vertex_shader.raw,
        request.fragment_shader == descriptor.fragment_shader.raw,
        request.state == native_state(backend, descriptor.state),
{
    PipelineRequest {
        label: descriptor.label,
        layout: expect_backend(descriptor.layout, backend),
        vertex_shader: expect_backend(descriptor.vertex_shader, backend),
        fragment_shader: expect_backend(descriptor.fragment_shader, backend),
        state: translate_state(backend, &descriptor.state),
    }
}

} // verus!
