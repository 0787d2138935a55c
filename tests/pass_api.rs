use slingshot::command::{
    Command, CommandBuffer, DescriptorBufferInfo, DescriptorImageInfo, DescriptorPoolSize, DescriptorSetBinding,
    DescriptorSetRef, DescriptorType, DescriptorWrite, PipelineBindPoint, WHOLE_SIZE,
};
use slingshot::framebuffer::{FramebufferCache, RenderPass};
use slingshot::pass_api::RenderPassApi;
use slingshot::pipeline::{
    ComputePipeline, RasterPipeline, RgComputePipelineHandle, RgRasterPipelineHandle, ShaderPipelineCommon,
};
use slingshot::registry::{Device, ImageDesc, ImageViewCache, ResourceRegistry};
use slingshot::resource::{
    Buffer, GpuRt, GpuSrv, GpuUav, GraphRawResourceHandle, Image, ImageLayout, ImageViewDesc, Ref,
    RenderPassBinding,
};

const FRAME_SET: u64 = 900;
const FRAME_OFFSET: u32 = 256;

fn view_desc() -> ImageViewDesc {
    ImageViewDesc { view_type: None, format: None, aspect_mask: 1, base_mip_level: 0, level_count: None }
}

fn image_desc(format: u32, width: u32, height: u32, sample_count: u32) -> ImageDesc {
    ImageDesc { format, width, height, depth: 1, mip_levels: 1, sample_count, usage: 16 }
}

fn common(set_layout_info: Vec<Vec<u32>>, bind_point: PipelineBindPoint) -> ShaderPipelineCommon {
    let n = set_layout_info.len() as u64;
    ShaderPipelineCommon {
        pipeline: 11,
        pipeline_layout: 22,
        pipeline_bind_point: bind_point,
        set_layout_info,
        descriptor_set_layouts: (0..n).map(|i| 100 + i).collect(),
        descriptor_pool_sizes: vec![DescriptorPoolSize { ty: DescriptorType::StorageBuffer, descriptor_count: 4 }],
    }
}

fn api_with(sets: Vec<Vec<u32>>, group_size: [u32; 3]) -> RenderPassApi {
    RenderPassApi {
        cb: CommandBuffer::new(),
        resources: ResourceRegistry {
            device: Device { raw: 1 },
            images: vec![image_desc(37, 64, 64, 1), image_desc(37, 64, 64, 1), image_desc(126, 64, 64, 1)],
            buffers: vec![500, 501, 502],
            image_views: ImageViewCache::new(),
            compute_pipelines: vec![ComputePipeline {
                common: common(sets.clone(), PipelineBindPoint::Compute),
                group_size,
            }],
            raster_pipelines: vec![RasterPipeline { common: common(sets, PipelineBindPoint::Graphics) }],
            frame_descriptor_set: FRAME_SET,
            frame_constants_offset: FRAME_OFFSET,
        },
    }
}

fn handle(id: u32) -> GraphRawResourceHandle {
    GraphRawResourceHandle { id }
}

fn writes_of(commands: &[Command]) -> Vec<DescriptorWrite> {
    let mut out = Vec::new();
    for c in commands {
        if let Command::UpdateDescriptorSets { writes } = c {
            out.extend(writes.iter().copied());
        }
    }
    out
}

#[test]
fn srv_image_binds_in_shader_read_only_layout() {
    let r: Ref<Image, GpuSrv> = Ref::new(handle(3));
    match r.bind(view_desc()) {
        RenderPassBinding::Image(img) => {
            assert_eq!(img.handle, handle(3));
            assert_eq!(img.image_layout, ImageLayout::ShaderReadOnlyOptimal);
            assert_eq!(img.view_desc, view_desc());
        }
        RenderPassBinding::Buffer(_) => panic!("expected an image binding"),
    }
}

#[test]
fn uav_image_binds_in_general_layout() {
    let r: Ref<Image, GpuUav> = Ref::new(handle(4));
    match r.bind(view_desc()) {
        RenderPassBinding::Image(img) => {
            assert_eq!(img.handle, handle(4));
            assert_eq!(img.image_layout, ImageLayout::General);
        }
        RenderPassBinding::Buffer(_) => panic!("expected an image binding"),
    }
}

#[test]
fn buffer_refs_bind_as_buffers() {
    let srv: Ref<Buffer, GpuSrv> = Ref::new(handle(1));
    let uav: Ref<Buffer, GpuUav> = Ref::new(handle(2));
    assert!(matches!(srv.bind(), RenderPassBinding::Buffer(b) if b.handle == handle(1)));
    assert!(matches!(uav.bind(), RenderPassBinding::Buffer(b) if b.handle == handle(2)));
}

#[test]
fn buffer_bindings_are_whole_range_storage_buffers() {
    let mut api = api_with(vec![vec![0, 1]], [64, 1, 1]);
    let srv: Ref<Buffer, GpuSrv> = Ref::new(handle(1));
    let uav: Ref<Buffer, GpuUav> = Ref::new(handle(2));
    let bindings = [srv.bind(), uav.bind()];
    let binding = RgComputePipelineHandle { id: 0 }.into_binding().descriptor_set(0, &bindings);
    api.bind_compute_pipeline(binding);
    let writes = writes_of(&api.cb.commands);
    assert_eq!(writes.len(), 2);
    assert_eq!(
        writes[0],
        DescriptorWrite {
            dst_set: DescriptorSetRef::Transient(1),
            dst_binding: 0,
            descriptor_type: DescriptorType::StorageBuffer,
            info: DescriptorSetBinding::Buffer(DescriptorBufferInfo { buffer: 501, offset: 0, range: WHOLE_SIZE }),
        }
    );
    assert_eq!(writes[1].descriptor_type, DescriptorType::StorageBuffer);
    assert_eq!(
        writes[1].info,
        DescriptorSetBinding::Buffer(DescriptorBufferInfo { buffer: 502, offset: 0, range: WHOLE_SIZE })
    );
}

#[test]
fn image_bindings_get_sampled_and_storage_types() {
    let mut api = api_with(vec![vec![0, 1]], [8, 8, 1]);
    let srv: Ref<Image, GpuSrv> = Ref::new(handle(0));
    let uav: Ref<Image, GpuUav> = Ref::new(handle(1));
    let bindings = [srv.bind(view_desc()), uav.bind(view_desc())];
    api.bind_compute_pipeline(RgComputePipelineHandle { id: 0 }.into_binding().descriptor_set(0, &bindings));
    let writes = writes_of(&api.cb.commands);
    assert_eq!(writes.len(), 2);
    assert_eq!(writes[0].descriptor_type, DescriptorType::SampledImage);
    assert_eq!(
        writes[0].info,
        DescriptorSetBinding::Image(DescriptorImageInfo {
            image_view: 0,
            image_layout: ImageLayout::ShaderReadOnlyOptimal
        })
    );
    assert_eq!(writes[1].descriptor_type, DescriptorType::StorageImage);
    assert_eq!(
        writes[1].info,
        DescriptorSetBinding::Image(DescriptorImageInfo { image_view: 1, image_layout: ImageLayout::General })
    );
    assert_eq!(api.resources.image_views.keys.len(), 2);
}

#[test]
fn only_declared_binding_index_is_written() {
    let mut api = api_with(vec![vec![0]], [64, 1, 1]);
    let a: Ref<Buffer, GpuSrv> = Ref::new(handle(0));
    let b: Ref<Buffer, GpuSrv> = Ref::new(handle(1));
    let bindings = [a.bind(), b.bind()];
    api.bind_compute_pipeline(RgComputePipelineHandle { id: 0 }.into_binding().descriptor_set(0, &bindings));
    let writes = writes_of(&api.cb.commands);
    assert_eq!(writes.len(), 1);
    assert_eq!(writes[0].dst_binding, 0);
    assert_eq!(
        api.cb.commands.last(),
        Some(&Command::BindDescriptorSet {
            bind_point: PipelineBindPoint::Compute,
            layout: 22,
            set_index: 0,
            set: DescriptorSetRef::Transient(1),
            dynamic_offset: None,
        })
    );
}

#[test]
fn bindings_with_gaps_and_beyond_the_layout_are_filtered() {
    let mut api = api_with(vec![vec![1, 3]], [64, 1, 1]);
    let bindings: Vec<RenderPassBinding> =
        (0..6u32).map(|i| Ref::<Buffer, GpuUav>::new(handle(i % 3)).bind()).collect();
    api.bind_compute_pipeline(RgComputePipelineHandle { id: 0 }.into_binding().descriptor_set(0, &bindings));
    let indices: Vec<u32> = writes_of(&api.cb.commands).iter().map(|w| w.dst_binding).collect();
    assert_eq!(indices, vec![1, 3]);
}

#[test]
fn undeclared_set_index_records_nothing() {
    let mut api = api_with(vec![vec![0]], [64, 1, 1]);
    let a: Ref<Buffer, GpuSrv> = Ref::new(handle(0));
    let bindings = [a.bind()];
    api.bind_compute_pipeline(RgComputePipelineHandle { id: 0 }.into_binding().descriptor_set(5, &bindings));
    assert_eq!(api.cb.commands, vec![Command::BindPipeline { bind_point: PipelineBindPoint::Compute, pipeline: 11 }]);
}

#[test]
fn same_set_index_twice_is_materialized_twice() {
    let mut api = api_with(vec![vec![0]], [64, 1, 1]);
    let a: Ref<Buffer, GpuSrv> = Ref::new(handle(0));
    let bindings = [a.bind()];
    let binding =
        RgComputePipelineHandle { id: 0 }.into_binding().descriptor_set(0, &bindings).descriptor_set(0, &bindings);
    api.bind_compute_pipeline(binding);
    let allocations =
        api.cb.commands.iter().filter(|c| matches!(c, Command::AllocateDescriptorSet { .. })).count();
    assert_eq!(allocations, 2);
    assert_eq!(api.cb.commands.len(), 7);
}

#[test]
fn materialized_set_is_allocated_from_the_pipeline_layout() {
    let mut api = api_with(vec![vec![], vec![0]], [64, 1, 1]);
    let a: Ref<Buffer, GpuSrv> = Ref::new(handle(0));
    let bindings = [a.bind()];
    api.bind_compute_pipeline(RgComputePipelineHandle { id: 0 }.into_binding().descriptor_set(1, &bindings));
    assert_eq!(
        api.cb.commands[1],
        Command::AllocateDescriptorSet {
            set_layout: 101,
            pool_sizes: vec![DescriptorPoolSize { ty: DescriptorType::StorageBuffer, descriptor_count: 4 }],
        }
    );
}

#[test]
fn frame_constants_bound_before_declared_sets() {
    let mut api = api_with(vec![vec![0], vec![], vec![0]], [64, 1, 1]);
    let a: Ref<Buffer, GpuSrv> = Ref::new(handle(0));
    let bindings = [a.bind()];
    api.bind_compute_pipeline(RgComputePipelineHandle { id: 0 }.into_binding().descriptor_set(0, &bindings));
    assert_eq!(api.cb.commands[0], Command::BindPipeline { bind_point: PipelineBindPoint::Compute, pipeline: 11 });
    assert_eq!(
        api.cb.commands[1],
        Command::BindDescriptorSet {
            bind_point: PipelineBindPoint::Compute,
            layout: 22,
            set_index: 2,
            set: DescriptorSetRef::Raw(FRAME_SET),
            dynamic_offset: Some(FRAME_OFFSET),
        }
    );
    assert!(matches!(api.cb.commands[2], Command::AllocateDescriptorSet { .. }));
}

#[test]
fn empty_set_two_does_not_bind_frame_constants() {
    let mut api = api_with(vec![vec![0], vec![], vec![]], [64, 1, 1]);
    api.bind_compute_pipeline(RgComputePipelineHandle { id: 0 }.into_binding());
    assert_eq!(api.cb.commands, vec![Command::BindPipeline { bind_point: PipelineBindPoint::Compute, pipeline: 11 }]);
}

#[test]
fn absent_set_two_does_not_bind_frame_constants() {
    let mut api = api_with(vec![vec![0]], [64, 1, 1]);
    api.bind_compute_pipeline(RgComputePipelineHandle { id: 0 }.into_binding());
    assert_eq!(api.cb.commands.len(), 1);
}

#[test]
fn raw_descriptor_sets_are_bound_as_given() {
    let mut api = api_with(vec![vec![0]], [64, 1, 1]);
    api.bind_compute_pipeline(RgComputePipelineHandle { id: 0 }.into_binding().raw_descriptor_set(3, 777));
    assert_eq!(
        api.cb.commands[1],
        Command::BindDescriptorSet {
            bind_point: PipelineBindPoint::Compute,
            layout: 22,
            set_index: 3,
            set: DescriptorSetRef::Raw(777),
            dynamic_offset: None,
        }
    );
    assert!(writes_of(&api.cb.commands).is_empty());
}

#[test]
fn raster_pipeline_binds_frame_constants_sets_and_raw_sets() {
    let mut api = api_with(vec![vec![0], vec![], vec![1]], [1, 1, 1]);
    let a: Ref<Buffer, GpuSrv> = Ref::new(handle(0));
    let bindings = [a.bind()];
    let bound = api.bind_raster_pipeline(
        RgRasterPipelineHandle { id: 0 }.into_binding().descriptor_set(0, &bindings).raw_descriptor_set(1, 42),
    );
    assert_eq!(bound.pipeline, RgRasterPipelineHandle { id: 0 });
    let c = &api.cb.commands;
    assert_eq!(c.len(), 6);
    assert_eq!(c[0], Command::BindPipeline { bind_point: PipelineBindPoint::Graphics, pipeline: 11 });
    assert!(matches!(c[1], Command::BindDescriptorSet { set_index: 2, dynamic_offset: Some(FRAME_OFFSET), .. }));
    assert!(matches!(c[5], Command::BindDescriptorSet { set_index: 1, set: DescriptorSetRef::Raw(42), .. }));
    bound.draw(&mut api, 3, 1, 0, 0);
    assert_eq!(
        api.cb.commands[6],
        Command::Draw { vertex_count: 3, instance_count: 1, first_vertex: 0, first_instance: 0 }
    );
}

#[test]
fn dispatch_rounds_thread_counts_up_to_groups() {
    let mut api = api_with(vec![vec![0]], [64, 1, 1]);
    let bound = api.bind_compute_pipeline(RgComputePipelineHandle { id: 0 }.into_binding());
    bound.dispatch(&mut api, [65, 1, 1]);
    assert_eq!(api.cb.commands.last(), Some(&Command::Dispatch { x: 2, y: 1, z: 1 }));
}

#[test]
fn dispatch_per_axis_and_edges() {
    let mut api = api_with(vec![vec![0]], [8, 4, 3]);
    let bound = api.bind_compute_pipeline(RgComputePipelineHandle { id: 0 }.into_binding());
    assert_eq!(bound.group_size, [8, 4, 3]);
    bound.dispatch(&mut api, [64, 5, 0]);
    assert_eq!(api.cb.commands.last(), Some(&Command::Dispatch { x: 8, y: 2, z: 0 }));
    bound.dispatch(&mut api, [u32::MAX, 1, 7]);
    assert_eq!(api.cb.commands.last(), Some(&Command::Dispatch { x: 536_870_912, y: 1, z: 3 }));
}

fn color(id: u32) -> (Ref<Image, GpuRt>, ImageViewDesc) {
    (Ref::new(handle(id)), view_desc())
}

#[test]
fn framebuffer_reused_for_identical_attachment_descriptors() {
    let mut api = api_with(vec![vec![0]], [64, 1, 1]);
    let mut pass = RenderPass { raw: 70, framebuffer_cache: FramebufferCache::new() };
    api.begin_render_pass(&mut pass, [64, 64], &[color(0)], None);
    api.end_render_pass();
    // image 1 has the same descriptor as image 0
    api.begin_render_pass(&mut pass, [64, 64], &[color(1)], None);
    assert_eq!(pass.framebuffer_cache.keys.len(), 1);
    let fbs: Vec<u64> = api
        .cb
        .commands
        .iter()
        .filter_map(|c| match c {
            Command::BeginRenderPass { framebuffer, .. } => Some(*framebuffer),
            _ => None,
        })
        .collect();
    assert_eq!(fbs, vec![0, 0]);
    assert_eq!(api.cb.commands[1], Command::EndRenderPass);
}

#[test]
fn framebuffer_miss_on_different_attachment_descriptor() {
    let mut api = api_with(vec![vec![0]], [64, 1, 1]);
    let mut pass = RenderPass { raw: 70, framebuffer_cache: FramebufferCache::new() };
    api.begin_render_pass(&mut pass, [64, 64], &[color(0)], None);
    // image 2 differs in format
    api.begin_render_pass(&mut pass, [64, 64], &[color(2)], None);
    // other dimensions
    api.begin_render_pass(&mut pass, [32, 64], &[color(0)], None);
    // a depth attachment added
    api.begin_render_pass(&mut pass, [64, 64], &[color(0)], Some(color(2)));
    assert_eq!(pass.framebuffer_cache.keys.len(), 4);
    let fbs: Vec<u64> = api
        .cb
        .commands
        .iter()
        .filter_map(|c| match c {
            Command::BeginRenderPass { framebuffer, .. } => Some(*framebuffer),
            _ => None,
        })
        .collect();
    assert_eq!(fbs, vec![0, 1, 2, 3]);
}

#[test]
fn begin_render_pass_hands_over_attachment_views_in_order() {
    let mut api = api_with(vec![vec![0]], [64, 1, 1]);
    let mut pass = RenderPass { raw: 70, framebuffer_cache: FramebufferCache::new() };
    api.begin_render_pass(&mut pass, [64, 32], &[color(1), color(0)], Some(color(2)));
    assert_eq!(
        api.cb.commands[0],
        Command::BeginRenderPass { render_pass: 70, framebuffer: 0, width: 64, height: 32, attachments: vec![0, 1, 2] }
    );
    // the view of image 0 is looked up again, not made anew
    api.begin_render_pass(&mut pass, [64, 32], &[color(0)], None);
    assert_eq!(
        api.cb.commands[1],
        Command::BeginRenderPass { render_pass: 70, framebuffer: 1, width: 64, height: 32, attachments: vec![1] }
    );
    assert_eq!(api.resources.image_views.keys.len(), 3);
}

#[test]
fn default_viewport_flips_vertical_axis() {
    let mut api = api_with(vec![vec![0]], [64, 1, 1]);
    api.set_default_view_and_scissor([1920, 1080]);
    assert_eq!(api.cb.commands[0], Command::SetViewport { x: 0, y: 1080, width: 1920, height: -1080 });
    assert_eq!(api.cb.commands[1], Command::SetScissor { x: 0, y: 0, width: 1920, height: 1080 });
}

#[test]
fn device_is_the_registry_device() {
    let api = api_with(vec![vec![0]], [64, 1, 1]);
    assert_eq!(api.device().raw, 1);
}
