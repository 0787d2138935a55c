//! The commands recorded into a command buffer, and their mathematical model.
use crate::resource::ImageLayout;
use vstd::prelude::*;

verus! {

/// Buffer range that reaches to the end of the buffer.
pub const WHOLE_SIZE: u64 = 0xffff_ffff_ffff_ffff;

#[derive(Clone, Copy, Debug, PartialEq, Eq, Structural)]
pub enum PipelineBindPoint {
    Graphics,
    Compute,
}

#[derive(Clone, Copy, Debug, PartialEq, Eq, Structural)]
pub enum DescriptorType {
    Sampler,
    SampledImage,
    StorageImage,
    UniformBuffer,
    StorageBuffer,
    UniformBufferDynamic,
}

#[derive(Clone, Copy, Debug, PartialEq, Eq, Structural)]
pub struct DescriptorPoolSize {
    pub ty: DescriptorType,
    pub descriptor_count: u32,
}

#[derive(Clone, Copy, Debug, PartialEq, Eq, Structural)]
pub struct DescriptorImageInfo {
    pub image_view: u64,
    pub image_layout: ImageLayout,
}

#[derive(Clone, Copy, Debug, PartialEq, Eq, Structural)]
pub struct DescriptorBufferInfo {
    pub buffer: u64,
    pub offset: u64,
    pub range: u64,
}

/// A binding whose graph handle has been resolved to a device object.
#[derive(Clone, Copy, Debug, PartialEq, Eq, Structural)]
pub enum DescriptorSetBinding {
    Image(DescriptorImageInfo),
    Buffer(DescriptorBufferInfo),
}

/// A descriptor set named by a command: one made elsewhere (raw), or the one
/// allocated by the command at the given position of the same buffer.
#[derive(Clone, Copy, Debug, PartialEq, Eq, Structural)]
pub enum DescriptorSetRef {
    Raw(u64),
    Transient(u64),
}

#[derive(Clone, Copy, Debug, PartialEq, Eq, Structural)]
pub struct DescriptorWrite {
    pub dst_set: DescriptorSetRef,
    pub dst_binding: u32,
    pub descriptor_type: DescriptorType,
    pub info: DescriptorSetBinding,
}

/// One command of a command buffer. Creating and allocating a transient
/// descriptor set comes with handing its pool to deferred release.
#[derive(Clone, Debug, PartialEq, Eq)]
pub enum Command {
    BindPipeline { bind_point: PipelineBindPoint, pipeline: u64 },
    BindDescriptorSet {
        bind_point: PipelineBindPoint,
        layout: u64,
        set_index: u32,
        set: DescriptorSetRef,
        dynamic_offset: Option<u32>,
    },
    AllocateDescriptorSet { set_layout: u64, pool_sizes: Vec<DescriptorPoolSize> },
    UpdateDescriptorSets { writes: Vec<DescriptorWrite> },
    BeginRenderPass { render_pass: u64, framebuffer: u64, width: u32, height: u32, attachments: Vec<u64> },
    EndRenderPass,
    /// Depth range is always zero to one.
    SetViewport { x: i64, y: i64, width: i64, height: i64 },
    SetScissor { x: i32, y: i32, width: u32, height: u32 },
    Dispatch { x: u32, y: u32, z: u32 },
    Draw { vertex_count: u32, instance_count: u32, first_vertex: u32, first_instance: u32 },
}

/// The model of a command: lists become sequences.
pub enum CommandView {
    BindPipeline { bind_point: PipelineBindPoint, pipeline: u64 },
    BindDescriptorSet {
        bind_point: PipelineBindPoint,
        layout: u64,
        set_index: u32,
        set: DescriptorSetRef,
        dynamic_offset: Option<u32>,
    },
    AllocateDescriptorSet { set_layout: u64, pool_sizes: Seq<DescriptorPoolSize> },
    UpdateDescriptorSets { writes: Seq<DescriptorWrite> },
    BeginRenderPass { render_pass: u64, framebuffer: u64, width: u32, height: u32, attachments: Seq<u64> },
    EndRenderPass,
    SetViewport { x: i64, y: i64, width: i64, height: i64 },
    SetScissor { x: i32, y: i32, width: u32, height: u32 },
    Dispatch { x: u32, y: u32, z: u32 },
    Draw { vertex_count: u32, instance_count: u32, first_vertex: u32, first_instance: u32 },
}

impl View for Command {
    type V = CommandView;

    open spec fn view(&self) -> CommandView {
        match self {
            Command::BindPipeline { bind_point, pipeline } => CommandView::BindPipeline {
                bind_point: *bind_point,
                pipeline: *pipeline,
            },
            Command::BindDescriptorSet { bind_point, layout, set_index, set, dynamic_offset } =>
                CommandView::BindDescriptorSet {
                bind_point: *bind_point,
                layout: *layout,
                set_index: *set_index,
                set: *set,
                dynamic_offset: *dynamic_offset,
            },
            Command::AllocateDescriptorSet { set_layout, pool_sizes } =>
                CommandView::AllocateDescriptorSet { set_layout: *set_layout, pool_sizes: pool_sizes@ },
            Command::UpdateDescriptorSets { writes } => CommandView::UpdateDescriptorSets {
                writes: writes@,
            },
            Command::BeginRenderPass { render_pass, framebuffer, width, height, attachments } =>
                CommandView::BeginRenderPass {
                render_pass: *render_pass,
                framebuffer: *framebuffer,
                width: *width,
                height: *height,
                attachments: attachments@,
            },
            Command::EndRenderPass => CommandView::EndRenderPass,
            Command::SetViewport { x, y, width, height } => CommandView::SetViewport {
                x: *x,
                y: *y,
                width: *width,
                height: *height,
            },
            Command::SetScissor { x, y, width, height } => CommandView::SetScissor {
                x: *x,
                y: *y,
                width: *width,
                height: *height,
            },
            Command::Dispatch { x, y, z } => CommandView::Dispatch { x: *x, y: *y, z: *z },
            Command::Draw { vertex_count, instance_count, first_vertex, first_instance } =>
                CommandView::Draw {
                vertex_count: *vertex_count,
                instance_count: *instance_count,
                first_vertex: *first_vertex,
                first_instance: *first_instance,
            },
        }
    }
}

/// Commands in the order in which they were recorded.
#[derive(Clone, Debug, PartialEq, Eq)]
pub struct CommandBuffer {
    pub commands: Vec<Command>,
}

impl View for CommandBuffer {
    type V = Seq<CommandView>;

    open spec fn view(&self) -> Seq<CommandView> {
        self.commands@.map_values(|c: Command| c@)
    }
}

impl CommandBuffer {
    pub fn new() -> (r: CommandBuffer)
        ensures
            r@ == Seq::<CommandView>::empty(),
    {
        let r = CommandBuffer { commands: Vec::new() };
        assert(r@ =~= Seq::<CommandView>::empty());
        r
    }

    pub fn len(&self) -> (r: usize)
        ensures
            r == self@.len(),
    {
        self.commands.len()
    }

    /// Appends one command.
    pub fn record(&mut self, c: Command)
        ensures
            final(self)@ == old(self)@.push(c@),
    {
        self.commands.push(c);
        assert(self@ =~= old(self)@.push(c@));
    }
}

} // verus!
