//! Pipeline layout metadata and the builders that collect a pipeline's bindings.
use crate::command::{DescriptorPoolSize, PipelineBindPoint};
use crate::resource::RenderPassBinding;
use vstd::prelude::*;

verus! {

/// Descriptor set index reserved for the per-frame constants.
pub const FRAME_CONSTANTS_SET_INDEX: u32 = 2;

/// What a compiled pipeline declares about its bindings.
pub struct ShaderPipelineCommon {
    pub pipeline: u64,
    pub pipeline_layout: u64,
    pub pipeline_bind_point: PipelineBindPoint,
    /// For each set index, the binding indices that the layout declares.
    pub set_layout_info: Vec<Vec<u32>>,
    /// For each set index, its descriptor set layout object.
    pub descriptor_set_layouts: Vec<u64>,
    /// What a pool must hold to allocate one set of this pipeline.
    pub descriptor_pool_sizes: Vec<DescriptorPoolSize>,
}

impl ShaderPipelineCommon {
    pub open spec fn wf(&self) -> bool {
        self.descriptor_set_layouts@.len() == self.set_layout_info@.len()
    }

    /// The binding indices that set `set` declares; empty where it has none.
    pub open spec fn declared(&self, set: int) -> Seq<u32> {
        if 0 <= set < self.set_layout_info@.len() {
            self.set_layout_info@[set]@
        } else {
            Seq::empty()
        }
    }

    /// The layout declares a non-empty set at the frame-constants index.
    pub open spec fn declares_frame_constants(&self) -> bool {
        self.declared(FRAME_CONSTANTS_SET_INDEX as int).len() > 0
    }
}

pub struct ComputePipeline {
    pub common: ShaderPipelineCommon,
    /// Threads per group along each axis.
    pub group_size: [u32; 3],
}

impl ComputePipeline {
    pub open spec fn wf(&self) -> bool {
        &&& self.common.wf()
        &&& self.group_size@[0] > 0
        &&& self.group_size@[1] > 0
        &&& self.group_size@[2] > 0
    }
}

pub struct RasterPipeline {
    pub common: ShaderPipelineCommon,
}

impl RasterPipeline {
    pub open spec fn wf(&self) -> bool {
        self.common.wf()
    }
}

#[derive(Clone, Copy, Debug, PartialEq, Eq, Structural)]
pub struct RgComputePipelineHandle {
    pub id: usize,
}

#[derive(Clone, Copy, Debug, PartialEq, Eq, Structural)]
pub struct RgRasterPipelineHandle {
    pub id: usize,
}

/// The bindings of one compute pipeline bind, in declaration order.
pub struct RenderPassComputePipelineBinding<'a> {
    pub pipeline: RgComputePipelineHandle,
    pub bindings: Vec<(u32, &'a [RenderPassBinding])>,
    pub raw_bindings: Vec<(u32, u64)>,
}

impl<'a> RenderPassComputePipelineBinding<'a> {
    pub fn new(pipeline: RgComputePipelineHandle) -> (r: Self)
        ensures
            r.pipeline == pipeline,
            r.bindings@.len() == 0,
            r.raw_bindings@.len() == 0,
    {
        RenderPassComputePipelineBinding { pipeline, bindings: Vec::new(), raw_bindings: Vec::new() }
    }

    /// Appends the bindings of one descriptor set; an index given twice is
    /// kept twice.
    pub fn descriptor_set(self, set_idx: u32, bindings: &'a [RenderPassBinding]) -> (r: Self)
        ensures
            r.pipeline == self.pipeline,
            r.bindings@ == self.bindings@.push((set_idx, bindings)),
            r.raw_bindings@ == self.raw_bindings@,
    {
        let mut s = self;
        s.bindings.push((set_idx, bindings));
        s
    }

    /// Appends a descriptor set that the caller made and filled.
    pub fn raw_descriptor_set(self, set_idx: u32, binding: u64) -> (r: Self)
        ensures
            r.pipeline == self.pipeline,
            r.bindings@ == self.bindings@,
            r.raw_bindings@ == self.raw_bindings@.push((set_idx, binding)),
    {
        let mut s = self;
        s.raw_bindings.push((set_idx, binding));
        s
    }
}

impl RgComputePipelineHandle {
    pub fn into_binding<'a>(self) -> (r: RenderPassComputePipelineBinding<'a>)
        ensures
            r.pipeline == self,
            r.bindings@.len() == 0,
            r.raw_bindings@.len() == 0,
    {
        RenderPassComputePipelineBinding::new(self)
    }
}

/// The bindings of one raster pipeline bind, in declaration order.
pub struct RenderPassRasterPipelineBinding<'a> {
    pub pipeline: RgRasterPipelineHandle,
    pub bindings: Vec<(u32, &'a [RenderPassBinding])>,
    pub raw_bindings: Vec<(u32, u64)>,
}

impl<'a> RenderPassRasterPipelineBinding<'a> {
    pub fn new(pipeline: RgRasterPipelineHandle) -> (r: Self)
        ensures
            r.pipeline == pipeline,
            r.bindings@.len() == 0,
            r.raw_bindings@.len() == 0,
    {
        RenderPassRasterPipelineBinding { pipeline, bindings: Vec::new(), raw_bindings: Vec::new() }
    }

    /// Appends the bindings of one descriptor set; an index given twice is
    /// kept twice.
    pub fn descriptor_set(self, set_idx: u32, bindings: &'a [RenderPassBinding]) -> (r: Self)
        ensures
            r.pipeline == self.pipeline,
            r.bindings@ == self.bindings@.push((set_idx, bindings)),
            r.raw_bindings@ == self.raw_bindings@,
    {
        let mut s = self;
        s.bindings.push((set_idx, bindings));
        s
    }

    /// Appends a descriptor set that the caller made and filled.
    pub fn raw_descriptor_set(self, set_idx: u32, binding: u64) -> (r: Self)
        ensures
            r.pipeline == self.pipeline,
            r.bindings@ == self.bindings@,
            r.raw_bindings@ == self.raw_bindings@.push((set_idx, binding)),
    {
        let mut s = self;
        s.raw_bindings.push((set_idx, binding));
        s
    }
}

impl RgRasterPipelineHandle {
    pub fn into_binding<'a>(self) -> (r: RenderPassRasterPipelineBinding<'a>)
        ensures
            r.pipeline == self,
            r.bindings@.len() == 0,
            r.raw_bindings@.len() == 0,
    {
        RenderPassRasterPipelineBinding::new(self)
    }
}

} // verus!
