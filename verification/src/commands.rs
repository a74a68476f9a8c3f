//! What a frame records: the layout transitions at its two ends and the
//! draws between them.

use vstd::prelude::*;
use crate::surface::Extent;

verus! {

/// The layouts that a swapchain image passes through in a frame.
#[derive(Clone, Copy, Debug, PartialEq, Eq, Structural)]
pub enum ImageLayout {
    Undefined,
    ColorAttachment,
    PresentSource,
}

/// The stages of the pipeline that a transition orders.
#[derive(Clone, Copy, Debug, PartialEq, Eq, Structural)]
pub enum Stage {
    TopOfPipe,
    ColorAttachmentOutput,
    BottomOfPipe,
}

/// The accesses that a transition orders.
#[derive(Clone, Copy, Debug, PartialEq, Eq, Structural)]
pub enum Access {
    /// No access: there is nothing to make available or visible.
    Nothing,
    ColorAttachmentWrite,
}

/// A layout transition of a swapchain image: the layouts, and what has to
/// have happened before it and what has to wait for it.
#[derive(Clone, Copy, Debug, PartialEq, Eq, Structural)]
pub struct ImageTransition {
    pub image_index: u32,
    pub old_layout: ImageLayout,
    pub new_layout: ImageLayout,
    pub source_stage: Stage,
    pub source_access: Access,
    pub destination_stage: Stage,
    pub destination_access: Access,
}

/// The area that a frame renders to.
#[derive(Clone, Copy, Debug, PartialEq, Eq, Structural)]
pub struct RenderArea {
    pub x: i32,
    pub y: i32,
    pub extent: Extent,
}

/// The indices of a mesh: the native index buffer and how many indices it
/// holds.
#[derive(Clone, Copy, Debug, PartialEq, Eq, Structural)]
pub struct Indices {
    pub buffer: u64,
    pub count: u32,
}

/// An object to draw.
#[derive(Clone, Copy, Debug, PartialEq, Eq, Structural)]
pub struct Renderable {
    /// The material, which stands for a pipeline.
    pub material: u32,
    /// The packed handle of the object's bindings, which is pushed to the
    /// shaders as a constant.
    pub bindings: u32,
    pub vertex_count: u32,
    /// The indices of the object's mesh, if it has any. An object without
    /// indices, or with none in its buffer, is drawn by its vertices.
    pub indices: Option<Indices>,
    pub instance_count: u32,
}

/// A command of a frame's draw pass.
#[derive(Clone, Copy, Debug, PartialEq, Eq, Structural)]
pub enum DrawCommand {
    /// Bind the pipeline of this material, and the descriptor sets.
    BindMaterial(u32),
    /// Push this packed handle as the constant of the bindings.
    PushBindings(u32),
    /// Draw vertices, from the first vertex and the first instance.
    Draw { vertex_count: u32, instance_count: u32 },
    /// Bind this index buffer for the indexed draw that follows.
    BindIndexBuffer(u64),
    /// Draw by the indices of the index buffer bound last, from the first
    /// index and the first instance.
    DrawIndexed { index_count: u32, instance_count: u32 },
}

/// The Vulkan number of a layout.
pub open spec fn layout_number(layout: ImageLayout) -> i32 {
    match layout {
        ImageLayout::Undefined => 0,
        ImageLayout::ColorAttachment => 2,
        ImageLayout::PresentSource => 1_000_001_002,
    }
}

/// The Vulkan bit of a stage.
pub open spec fn stage_bit(stage: Stage) -> u64 {
    match stage {
        Stage::TopOfPipe => 0x1,
        Stage::ColorAttachmentOutput => 0x400,
        Stage::BottomOfPipe => 0x2000,
    }
}

/// The Vulkan bit of an access.
pub open spec fn access_bit(access: Access) -> u64 {
    match access {
        Access::Nothing => 0,
        Access::ColorAttachmentWrite => 0x100,
    }
}

/// The transition at the beginning of a frame: whatever the image held is
/// given up, and the image becomes a colour attachment before anything is
/// written to it.
pub open spec fn beginning_transition(image_index: u32) -> ImageTransition {
    ImageTransition {
        image_index,
        old_layout: ImageLayout::Undefined,
        new_layout: ImageLayout::ColorAttachment,
        source_stage: Stage::TopOfPipe,
        source_access: Access::Nothing,
        destination_stage: Stage::ColorAttachmentOutput,
        destination_access: Access::ColorAttachmentWrite,
    }
}

/// The transition at the end of a frame: once everything is written, the
/// colour attachment becomes presentable.
pub open spec fn ending_transition(image_index: u32) -> ImageTransition {
    ImageTransition {
        image_index,
        old_layout: ImageLayout::ColorAttachment,
        new_layout: ImageLayout::PresentSource,
        source_stage: Stage::ColorAttachmentOutput,
        source_access: Access::ColorAttachmentWrite,
        destination_stage: Stage::BottomOfPipe,
        destination_access: Access::Nothing,
    }
}

/// Whether an object is drawn by indices: it has an index buffer, and the
/// buffer holds indices.
pub open spec fn is_indexed(object: Renderable) -> bool {
    object.indices matches Some(indices) && indices.count != 0
}

/// The draw of an object: where it is drawn by indices, the binding of its
/// index buffer and then the indexed draw; else the one draw of its
/// vertices.
pub open spec fn draw_of(object: Renderable) -> Seq<DrawCommand> {
    if is_indexed(object) {
        seq![
            DrawCommand::BindIndexBuffer(object.indices->Some_0.buffer),
            DrawCommand::DrawIndexed {
                index_count: object.indices->Some_0.count,
                instance_count: object.instance_count,
            },
        ]
    } else {
        seq![
            DrawCommand::Draw {
                vertex_count: object.vertex_count,
                instance_count: object.instance_count,
            },
        ]
    }
}

/// Whether the object at `index` needs its material bound: the first
/// object does, and each whose material is not that of the object before.
pub open spec fn needs_bind(objects: Seq<Renderable>, index: int) -> bool {
    index == 0 || objects[index].material != objects[index - 1].material
}

/// The commands that draw `objects` in order: for each object the binding
/// of its material where that is needed, the push of its bindings, and its
/// draw, with the binding of its index buffer before an indexed draw.
pub open spec fn draw_commands(objects: Seq<Renderable>) -> Seq<DrawCommand>
    decreases objects.len(),
{
    if objects.len() == 0 {
        Seq::empty()
    } else {
        let before = draw_commands(objects.drop_last());
        let object = objects.last();
        let bound = if needs_bind(objects, objects.len() - 1) {
            before.push(DrawCommand::BindMaterial(object.material))
        } else {
            before
        };
        bound.push(DrawCommand::PushBindings(object.bindings)) + draw_of(object)
    }
}

/// The Vulkan number of a layout.
pub fn layout_to_raw(layout: ImageLayout) -> (raw: i32)
    ensures
        raw == layout_number(layout),
{
    match layout {
        ImageLayout::Undefined => 0,
        ImageLayout::ColorAttachment => 2,
        ImageLayout::PresentSource => 1_000_001_002,
    }
}

/// The Vulkan bit of a stage.
pub fn stage_to_raw(stage: Stage) -> (raw: u64)
    ensures
        raw == stage_bit(stage),
{
    match stage {
        Stage::TopOfPipe => 0x1,
        Stage::ColorAttachmentOutput => 0x400,
        Stage::BottomOfPipe => 0x2000,
    }
}

/// The Vulkan bit of an access.
pub fn access_to_raw(access: Access) -> (raw: u64)
    ensures
        raw == access_bit(access),
{
    match access {
        Access::Nothing => 0,
        Access::ColorAttachmentWrite => 0x100,
    }
}

/// The transition at the beginning of a frame.
pub fn begin_transition(image_index: u32) -> (transition: ImageTransition)
    ensures
        transition == beginning_transition(image_index),
{
    ImageTransition {
        image_index,
        old_layout: ImageLayout::Undefined,
        new_layout: ImageLayout::ColorAttachment,
        source_stage: Stage::TopOfPipe,
        source_access: Access::Nothing,
        destination_stage: Stage::ColorAttachmentOutput,
        destination_access: Access::ColorAttachmentWrite,
    }
}

/// The transition at the end of a frame, the reverse of the one at its
/// beginning.
pub fn end_transition(image_index: u32) -> (transition: ImageTransition)
    ensures
        transition == ending_transition(image_index),
{
    ImageTransition {
        image_index,
        old_layout: ImageLayout::ColorAttachment,
        new_layout: ImageLayout::PresentSource,
        source_stage: Stage::ColorAttachmentOutput,
        source_access: Access::ColorAttachmentWrite,
        destination_stage: Stage::BottomOfPipe,
        destination_access: Access::Nothing,
    }
}

/// The area that a frame renders to: all of the swapchain's extent.
pub fn render_area(extent: Extent) -> (area: RenderArea)
    ensures
        area == (RenderArea { x: 0, y: 0, extent }),
{
    RenderArea { x: 0, y: 0, extent }
}

/// Lays out the draw pass for `objects`, in their order. A material is
/// bound only where it differs from the one bound before; an object that
/// is drawn by indices has its index buffer bound before its draw.
pub fn draw_objects(objects: &Vec<Renderable>) -> (commands: Vec<DrawCommand>)
    ensures
        commands@ == draw_commands(objects@),
{
    let mut commands: Vec<DrawCommand> = Vec::new();
    let mut i: usize = 0;
    proof {
        assert(objects@.subrange(0, 0) =~= Seq::<Renderable>::empty());
    }
    while i < objects.len()
        invariant
            i <= objects@.len(),
            commands@ == draw_commands(objects@.subrange(0, i as int)),
        decreases objects@.len() - i,
    {
        let object = objects[i];
        proof {
            let upto = objects@.subrange(0, i as int + 1);
            assert(upto.drop_last() =~= objects@.subrange(0, i as int));
            assert(upto.last() == object);
            if i > 0 {
                assert(upto[i as int - 1] == objects@[i as int - 1]);
            }
        }
        if i == 0 || object.material != objects[i - 1].material {
            commands.push(DrawCommand::BindMaterial(object.material));
        }
        commands.push(DrawCommand::PushBindings(object.bindings));
        let ghost pushed = commands@;
        match object.indices {
            Some(indices) if indices.count != 0 => {
                commands.push(DrawCommand::BindIndexBuffer(indices.buffer));
                commands.push(
                    DrawCommand::DrawIndexed {
                        index_count: indices.count,
                        instance_count: object.instance_count,
                    },
                );
            },
            _ => {
                commands.push(
                    DrawCommand::Draw {
                        vertex_count: object.vertex_count,
                        instance_count: object.instance_count,
                    },
                );
            },
        }
        proof {
            assert(commands@ =~= pushed + draw_of(object));
        }
        i += 1;
    }
    proof {
        assert(objects@.subrange(0, i as int) =~= objects@);
    }
    commands
}

} // verus!
