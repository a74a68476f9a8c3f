use hyper_rhi::commands::{
    access_to_raw, begin_transition, draw_objects, end_transition, render_area, stage_to_raw,
    Access, DrawCommand, ImageLayout, ImageTransition, Indices, RenderArea, Renderable, Stage,
};
use hyper_rhi::error::{creation_result, subject_name, CreationError, Subject};
use hyper_rhi::key_code::KeyCode;
use hyper_rhi::memory::{
    buffer_size, buffer_usage_to_raw, host_visible, texture_size, BufferUsage, MemoryLocation,
};
use hyper_rhi::pipeline::{
    expect_backend, find_foreign_object, translate_pipeline, translate_state, Backend,
    BackendObject, CompareOp,
    CullMode, FrontFace, GraphicsPipelineDescriptor, PipelineState, PolygonMode, Topology,
};
use hyper_rhi::shader::{shader_words, shader_module_result, ShaderError, ShaderType};
use hyper_rhi::surface::{Extent, PixelFormat};

#[test]
fn key_codes_are_the_window_system_numbers() {
    assert_eq!(KeyCode::Space.code(), 32);
    assert_eq!(KeyCode::A.code(), 65);
    assert_eq!(KeyCode::Z.code(), 90);
    assert_eq!(KeyCode::World2.code(), 162);
    assert_eq!(KeyCode::Escape.code(), 256);
    assert_eq!(KeyCode::F25.code(), 314);
    assert_eq!(KeyCode::KeyPadEqual.code(), 336);
    assert_eq!(KeyCode::Menu.code(), 348);
    assert_eq!(KeyCode::Unknown.code(), -1);
}

#[test]
fn key_codes_round_trip() {
    let mut known = 0;
    for number in -2..400 {
        let key = KeyCode::from_code(number);
        if key == KeyCode::Unknown {
            assert!(number == -1 || KeyCode::from_code(number).code() == -1);
        } else {
            assert_eq!(key.code(), number);
            known += 1;
        }
    }
    assert_eq!(known, 120);
    assert_eq!(KeyCode::from_code(-1), KeyCode::Unknown);
    assert_eq!(KeyCode::from_code(0), KeyCode::Unknown);
    assert_eq!(KeyCode::from_code(58), KeyCode::Unknown);
    assert_eq!(KeyCode::from_code(65), KeyCode::A);
    assert_eq!(KeyCode::from_code(257), KeyCode::Enter);
    assert_eq!(KeyCode::from_code(347), KeyCode::RightSuper);
}

#[test]
fn shader_types_are_named() {
    assert_eq!(ShaderType::Fragment.name(), "fragment");
    assert_eq!(ShaderType::Vertex.name(), "vertex");
    assert_eq!(ShaderType::Fragment.subject(), Subject::FragmentShaderModule);
    assert_eq!(subject_name(ShaderType::Vertex.subject()), "vertex shader module");
    assert_eq!(subject_name(Subject::FragmentShaderModule), "fragment shader module");
}

#[test]
fn shader_bytecode_is_read_as_little_endian_words() {
    let bytes = vec![0x03, 0x02, 0x23, 0x07, 0x00, 0x00, 0x01, 0x00, 0xFF, 0xFF, 0xFF, 0xFF];
    assert_eq!(
        shader_words(ShaderType::Vertex, &bytes),
        Ok(vec![0x0723_0203, 0x0001_0000, 0xFFFF_FFFF])
    );
    assert_eq!(shader_words(ShaderType::Vertex, &Vec::new()), Ok(Vec::new()));
}

#[test]
fn unaligned_shader_bytecode_is_refused() {
    for length in [1usize, 2, 3, 5, 7] {
        assert_eq!(
            shader_words(ShaderType::Fragment, &vec![0; length]),
            Err(ShaderError::Unaligned(ShaderType::Fragment))
        );
    }
    assert_eq!(
        shader_words(ShaderType::Vertex, &vec![0; 6]),
        Err(ShaderError::Unaligned(ShaderType::Vertex))
    );
}

#[test]
fn shader_module_failure_names_the_stage() {
    assert_eq!(shader_module_result(ShaderType::Vertex, 0, 55), Ok(55));
    assert_eq!(
        shader_module_result(ShaderType::Fragment, -3, 0),
        Err(ShaderError::Creation(CreationError {
            code: -3,
            subject: Subject::FragmentShaderModule
        }))
    );
}

#[test]
fn creation_error_carries_code_and_subject() {
    assert_eq!(creation_result(0, 9, Subject::Texture), Ok(9));
    assert_eq!(
        creation_result(-2, 9, Subject::PipelineLayout),
        Err(CreationError { code: -2, subject: Subject::PipelineLayout })
    );
    assert_eq!(subject_name(Subject::Texture), "texture");
    assert_eq!(subject_name(Subject::PipelineLayout), "pipeline layout");
    assert_eq!(subject_name(Subject::TimelineSemaphore), "timeline semaphore");
    assert_eq!(subject_name(Subject::BinarySemaphore), "binary semaphore");
    assert_eq!(subject_name(Subject::Swapchain), "swapchain");
    assert_eq!(subject_name(Subject::ImageView), "image view");
    assert_eq!(subject_name(Subject::CommandBuffer), "command buffer");
}

#[test]
fn texture_size_is_four_bytes_a_pixel() {
    assert_eq!(texture_size(2, 3), Some(24));
    assert_eq!(texture_size(0, 100), Some(0));
    assert_eq!(texture_size(1280, 720), Some(3_686_400));
    assert_eq!(texture_size(u32::MAX, 1), Some(17_179_869_180));
    assert_eq!(texture_size(0x8000_0000, 0x8000_0000), None);
    assert_eq!(texture_size(0x8000_0000, 0x7FFF_FFFF), Some(0xFFFF_FFFE_0000_0000));
    assert_eq!(texture_size(u32::MAX, u32::MAX), None);
}

#[test]
fn buffer_size_is_stride_times_count() {
    assert_eq!(buffer_size(64, 3), Some(192));
    assert_eq!(buffer_size(64, 0), Some(0));
    assert_eq!(buffer_size(u64::MAX, 1), Some(u64::MAX));
    assert_eq!(buffer_size(u64::MAX, 2), None);
}

#[test]
fn buffer_usage_adds_up_its_bits() {
    let none = BufferUsage {
        transfer_source: false,
        transfer_destination: false,
        storage: false,
        index: false,
        vertex: false,
    };
    assert_eq!(buffer_usage_to_raw(none), 0);
    assert_eq!(buffer_usage_to_raw(BufferUsage { transfer_source: true, ..none }), 0x1);
    assert_eq!(buffer_usage_to_raw(BufferUsage { transfer_destination: true, ..none }), 0x2);
    assert_eq!(buffer_usage_to_raw(BufferUsage { storage: true, ..none }), 0x20);
    assert_eq!(buffer_usage_to_raw(BufferUsage { index: true, ..none }), 0x40);
    assert_eq!(buffer_usage_to_raw(BufferUsage { vertex: true, ..none }), 0x80);
    assert_eq!(
        buffer_usage_to_raw(BufferUsage { storage: true, transfer_destination: true, ..none }),
        0x22
    );
    let all = BufferUsage {
        transfer_source: true,
        transfer_destination: true,
        storage: true,
        index: true,
        vertex: true,
    };
    assert_eq!(buffer_usage_to_raw(all), 0xE3);
}

#[test]
fn only_device_memory_is_out_of_the_hosts_reach() {
    assert!(!host_visible(MemoryLocation::GpuOnly));
    assert!(host_visible(MemoryLocation::CpuToGpu));
    assert!(host_visible(MemoryLocation::GpuToCpu));
}

fn state() -> PipelineState {
    PipelineState {
        topology: Topology::TriangleList,
        polygon_mode: PolygonMode::Fill,
        cull_mode: CullMode::Back,
        front_face: FrontFace::CounterClockwise,
        depth_test: true,
        depth_write: true,
        depth_compare: CompareOp::LessOrEqual,
        blend: false,
        color_format: PixelFormat::Bgra8Srgb,
        depth_format: Some(PixelFormat::Depth32Float),
    }
}

#[test]
fn pipeline_state_reads_in_vulkan_numbers() {
    let native = translate_state(Backend::Vulkan, &state());
    assert_eq!(native.topology, 3);
    assert_eq!(native.fill_mode, 0);
    assert_eq!(native.cull_mode, 2);
    assert!(native.front_counter_clockwise);
    assert_eq!(native.depth_compare, 3);
    assert_eq!(native.color_format, 50);
    assert_eq!(native.depth_format, Some(126));
    assert!(native.depth_test && native.depth_write && !native.blend);
}

#[test]
fn pipeline_state_reads_in_direct3d_numbers() {
    let mut neutral = state();
    neutral.cull_mode = CullMode::Nothing;
    neutral.color_format = PixelFormat::Rgba8Unorm;
    neutral.depth_format = None;
    neutral.front_face = FrontFace::Clockwise;
    let native = translate_state(Backend::D3d12, &neutral);
    assert_eq!(native.topology, 3);
    assert_eq!(native.fill_mode, 3);
    assert_eq!(native.cull_mode, 1);
    assert!(!native.front_counter_clockwise);
    assert_eq!(native.depth_compare, 4);
    assert_eq!(native.color_format, 28);
    assert_eq!(native.depth_format, None);
    neutral.polygon_mode = PolygonMode::Line;
    neutral.topology = Topology::LineList;
    neutral.depth_compare = CompareOp::Always;
    neutral.color_format = PixelFormat::Bgra8Srgb;
    let native = translate_state(Backend::D3d12, &neutral);
    assert_eq!((native.fill_mode, native.topology, native.depth_compare), (2, 2, 8));
    assert_eq!(native.color_format, 91);
    let native = translate_state(Backend::Vulkan, &neutral);
    assert_eq!((native.fill_mode, native.topology, native.depth_compare), (1, 1, 7));
}

#[test]
fn pipeline_request_holds_the_native_objects_and_state() {
    let vulkan = |raw| BackendObject { backend: Backend::Vulkan, raw };
    let descriptor = GraphicsPipelineDescriptor {
        label: Some("Pipeline Graphics Default"),
        layout: vulkan(1),
        vertex_shader: vulkan(2),
        fragment_shader: vulkan(3),
        state: state(),
    };
    assert_eq!(find_foreign_object(Backend::Vulkan, &descriptor), None);
    let request = translate_pipeline(Backend::Vulkan, &descriptor);
    assert_eq!(request.label, Some("Pipeline Graphics Default"));
    assert_eq!((request.layout, request.vertex_shader, request.fragment_shader), (1, 2, 3));
    assert_eq!(request.state, translate_state(Backend::Vulkan, &state()));
    let unlabelled = GraphicsPipelineDescriptor { label: None, ..descriptor };
    assert_eq!(translate_pipeline(Backend::Vulkan, &unlabelled).label, None);
    assert_eq!(expect_backend(vulkan(8), Backend::Vulkan), 8);
}

#[test]
fn foreign_object_is_found_at_the_boundary() {
    let vulkan = |raw| BackendObject { backend: Backend::Vulkan, raw };
    let direct3d = |raw| BackendObject { backend: Backend::D3d12, raw };
    let descriptor = GraphicsPipelineDescriptor {
        label: None,
        layout: vulkan(1),
        vertex_shader: vulkan(2),
        fragment_shader: vulkan(3),
        state: state(),
    };
    assert_eq!(find_foreign_object(Backend::D3d12, &descriptor), Some(vulkan(1)));
    let mixed = GraphicsPipelineDescriptor { fragment_shader: direct3d(3), ..descriptor };
    assert_eq!(find_foreign_object(Backend::Vulkan, &mixed), Some(direct3d(3)));
    let mixed = GraphicsPipelineDescriptor { vertex_shader: direct3d(2), ..mixed };
    assert_eq!(find_foreign_object(Backend::Vulkan, &mixed), Some(direct3d(2)));
    assert_eq!(find_foreign_object(Backend::D3d12, &mixed), Some(vulkan(1)));
}

#[test]
fn frame_transitions_are_each_others_reverse() {
    assert_eq!(
        begin_transition(2),
        ImageTransition {
            image_index: 2,
            old_layout: ImageLayout::Undefined,
            new_layout: ImageLayout::ColorAttachment,
            source_stage: Stage::TopOfPipe,
            source_access: Access::Nothing,
            destination_stage: Stage::ColorAttachmentOutput,
            destination_access: Access::ColorAttachmentWrite,
        }
    );
    assert_eq!(
        end_transition(2),
        ImageTransition {
            image_index: 2,
            old_layout: ImageLayout::ColorAttachment,
            new_layout: ImageLayout::PresentSource,
            source_stage: Stage::ColorAttachmentOutput,
            source_access: Access::ColorAttachmentWrite,
            destination_stage: Stage::BottomOfPipe,
            destination_access: Access::Nothing,
        }
    );
    assert_eq!(stage_to_raw(Stage::TopOfPipe), 0x1);
    assert_eq!(stage_to_raw(Stage::ColorAttachmentOutput), 0x400);
    assert_eq!(stage_to_raw(Stage::BottomOfPipe), 0x2000);
    assert_eq!(access_to_raw(Access::Nothing), 0);
    assert_eq!(access_to_raw(Access::ColorAttachmentWrite), 0x100);
    assert_eq!(begin_transition(2).new_layout, end_transition(2).old_layout);
    assert_eq!(
        render_area(Extent { width: 1280, height: 720 }),
        RenderArea { x: 0, y: 0, extent: Extent { width: 1280, height: 720 } }
    );
}

#[test]
fn material_is_bound_only_when_it_changes() {
    let object = |material, bindings, indices| Renderable {
        material,
        bindings,
        vertex_count: 3,
        indices,
        instance_count: 1,
    };
    let indexed = Some(Indices { buffer: 0xB0, count: 36 });
    let commands =
        draw_objects(&vec![object(7, 100, None), object(7, 101, indexed), object(8, 102, None)]);
    assert_eq!(
        commands,
        vec![
            DrawCommand::BindMaterial(7),
            DrawCommand::PushBindings(100),
            DrawCommand::Draw { vertex_count: 3, instance_count: 1 },
            DrawCommand::PushBindings(101),
            DrawCommand::BindIndexBuffer(0xB0),
            DrawCommand::DrawIndexed { index_count: 36, instance_count: 1 },
            DrawCommand::BindMaterial(8),
            DrawCommand::PushBindings(102),
            DrawCommand::Draw { vertex_count: 3, instance_count: 1 },
        ]
    );
    assert!(draw_objects(&Vec::new()).is_empty());
}

#[test]
fn index_buffer_is_bound_before_every_indexed_draw() {
    let object = |buffer, count| Renderable {
        material: 1,
        bindings: 9,
        vertex_count: 4,
        indices: Some(Indices { buffer, count }),
        instance_count: 2,
    };
    let commands = draw_objects(&vec![object(0xA, 6), object(0xA, 6), object(0xB, 0)]);
    assert_eq!(
        commands,
        vec![
            DrawCommand::BindMaterial(1),
            DrawCommand::PushBindings(9),
            DrawCommand::BindIndexBuffer(0xA),
            DrawCommand::DrawIndexed { index_count: 6, instance_count: 2 },
            DrawCommand::PushBindings(9),
            DrawCommand::BindIndexBuffer(0xA),
            DrawCommand::DrawIndexed { index_count: 6, instance_count: 2 },
            DrawCommand::PushBindings(9),
            DrawCommand::Draw { vertex_count: 4, instance_count: 2 },
        ]
    );
}
