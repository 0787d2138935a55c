//! The object handed to each recorded pass: binds pipelines with their
//! descriptor sets, begins and ends render passes, and yields handles that
//! only dispatch or draw.
use crate::attachments::{attachment_items, attachments_new, attachments_push, attachments_to_vec, MAX_COLOR_ATTACHMENTS};
use crate::command::{
    Command, CommandBuffer, CommandView, DescriptorBufferInfo, DescriptorImageInfo, DescriptorSetBinding,
    DescriptorSetRef, DescriptorType, WHOLE_SIZE,
};
use crate::descriptor_set::{bind_descriptor_set, descriptor_set_commands, descriptor_type_of};
use crate::framebuffer::{FramebufferCacheKey, FramebufferCacheKeyView, RenderPass};
use crate::pipeline::{
    RenderPassComputePipelineBinding, RenderPassRasterPipelineBinding, RgComputePipelineHandle, RgRasterPipelineHandle,
    ShaderPipelineCommon, FRAME_CONSTANTS_SET_INDEX,
};
use crate::registry::{memo_insert, Device, ImageDesc, ImageViewCache, ResourceRegistry};
use crate::resource::{GpuRt, GraphRawResourceHandle, Image, ImageViewDesc, Ref, RenderPassBinding};
use vstd::prelude::*;

verus! {

pub struct RenderPassApi {
    pub cb: CommandBuffer,
    pub resources: ResourceRegistry,
}

/// Image views by (image, view description).
pub type ViewKeys = Seq<(GraphRawResourceHandle, ImageViewDesc)>;

/// Every handle that `bindings` names is known to the registry.
pub open spec fn bindings_resolvable(bindings: Seq<RenderPassBinding>, images: nat, buffers: nat) -> bool {
    forall|j: int|
        0 <= j < bindings.len() ==> match #[trigger] bindings[j] {
            RenderPassBinding::Image(img) => img.handle.id < images,
            RenderPassBinding::Buffer(buf) => buf.handle.id < buffers,
        }
}

/// Every binding list of a pipeline bind is resolvable.
pub open spec fn set_lists_resolvable(
    lists: Seq<(u32, &[RenderPassBinding])>,
    images: nat,
    buffers: nat,
) -> bool {
    forall|k: int| 0 <= k < lists.len() ==> bindings_resolvable((#[trigger] lists[k]).1@, images, buffers)
}

/// A binding with its graph handle collapsed to a device object: an image
/// view out of the view cache, or the whole of a buffer.
pub open spec fn resolve_binding(views: ViewKeys, buffers: Seq<u64>, b: RenderPassBinding) -> (
    ViewKeys,
    DescriptorSetBinding,
) {
    match b {
        RenderPassBinding::Image(img) => {
            let (after, view) = memo_insert(views, (img.handle, img.view_desc));
            (
                after,
                DescriptorSetBinding::Image(
                    DescriptorImageInfo { image_view: view as u64, image_layout: img.image_layout },
                ),
            )
        },
        RenderPassBinding::Buffer(buf) => (
            views,
            DescriptorSetBinding::Buffer(
                DescriptorBufferInfo { buffer: buffers[buf.handle.id as int], offset: 0, range: WHOLE_SIZE },
            ),
        ),
    }
}

/// The first `n` bindings resolved in order.
pub open spec fn resolve_bindings(
    views: ViewKeys,
    buffers: Seq<u64>,
    bindings: Seq<RenderPassBinding>,
    n: nat,
) -> (ViewKeys, Seq<DescriptorSetBinding>)
    decreases n,
{
    if n == 0 {
        (views, Seq::empty())
    } else {
        let (v, done) = resolve_bindings(views, buffers, bindings, (n - 1) as nat);
        let (after, r) = resolve_binding(v, buffers, bindings[n - 1]);
        (after, done.push(r))
    }
}

/// The first `n` declared sets materialized in declaration order, after
/// the commands `cmds`.
pub open spec fn materialize_sets(
    p: &ShaderPipelineCommon,
    buffers: Seq<u64>,
    views: ViewKeys,
    cmds: Seq<CommandView>,
    lists: Seq<(u32, &[RenderPassBinding])>,
    n: nat,
) -> (ViewKeys, Seq<CommandView>)
    decreases n,
{
    if n == 0 {
        (views, cmds)
    } else {
        let (v, c) = materialize_sets(p, buffers, views, cmds, lists, (n - 1) as nat);
        let list = lists[n - 1].1@;
        let (after, resolved) = resolve_bindings(v, buffers, list, list.len());
        (after, c + descriptor_set_commands(p, lists[n - 1].0, resolved, c.len()))
    }
}

/// The bind of the per-frame constants set, where the layout declares it.
pub open spec fn frame_constants_commands(p: &ShaderPipelineCommon, frame_set: u64, offset: u32) -> Seq<
    CommandView,
> {
    if p.declares_frame_constants() {
        seq![
            CommandView::BindDescriptorSet {
                bind_point: p.pipeline_bind_point,
                layout: p.pipeline_layout,
                set_index: FRAME_CONSTANTS_SET_INDEX,
                set: DescriptorSetRef::Raw(frame_set),
                dynamic_offset: Some(offset),
            },
        ]
    } else {
        Seq::empty()
    }
}

/// The binds of caller-made sets, as given.
pub open spec fn raw_set_commands(p: &ShaderPipelineCommon, raw: Seq<(u32, u64)>) -> Seq<CommandView> {
    raw.map_values(
        |r: (u32, u64)|
            CommandView::BindDescriptorSet {
                bind_point: p.pipeline_bind_point,
                layout: p.pipeline_layout,
                set_index: r.0,
                set: DescriptorSetRef::Raw(r.1),
                dynamic_offset: None,
            },
    )
}

/// A pipeline bind: the pipeline, the frame constants where declared, each
/// declared set in order, then the caller-made sets.
pub open spec fn pipeline_bind_model(
    p: &ShaderPipelineCommon,
    reg: &ResourceRegistry,
    cmds: Seq<CommandView>,
    lists: Seq<(u32, &[RenderPassBinding])>,
    raw: Seq<(u32, u64)>,
) -> (ViewKeys, Seq<CommandView>) {
    let head = cmds.push(CommandView::BindPipeline { bind_point: p.pipeline_bind_point, pipeline: p.pipeline })
        + frame_constants_commands(p, reg.frame_descriptor_set, reg.frame_constants_offset);
    let (views, c) = materialize_sets(p, reg.buffers@, reg.image_views.keys@, head, lists, lists.len());
    (views, c + raw_set_commands(p, raw))
}

/// Whether a command binds a set with a dynamic offset, as only the
/// per-frame constants set is bound.
pub open spec fn binds_with_dynamic_offset(c: CommandView) -> bool {
    c is BindDescriptorSet && c->BindDescriptorSet_dynamic_offset is Some
}

proof fn lemma_materialize_extends(
    p: &ShaderPipelineCommon,
    buffers: Seq<u64>,
    views: ViewKeys,
    cmds: Seq<CommandView>,
    lists: Seq<(u32, &[RenderPassBinding])>,
    n: nat,
)
    ensures
        ({
            let c = materialize_sets(p, buffers, views, cmds, lists, n).1;
            &&& c.len() >= cmds.len()
            &&& c.subrange(0, cmds.len() as int) == cmds
            &&& forall|k: int| cmds.len() <= k < c.len() ==> !binds_with_dynamic_offset(#[trigger] c[k])
        }),
    decreases n,
{
    if n > 0 {
        lemma_materialize_extends(p, buffers, views, cmds, lists, (n - 1) as nat);
        let (v, c) = materialize_sets(p, buffers, views, cmds, lists, (n - 1) as nat);
        let list = lists[n - 1].1@;
        let (after, resolved) = resolve_bindings(v, buffers, list, list.len());
        let more = descriptor_set_commands(p, lists[n - 1].0, resolved, c.len());
        let all = c + more;
        assert(all.subrange(0, cmds.len() as int) =~= c.subrange(0, cmds.len() as int));
        assert forall|k: int| cmds.len() <= k < all.len() implies !binds_with_dynamic_offset(#[trigger] all[k]) by {
            if k >= c.len() {
                assert(all[k] == more[k - c.len()]);
            } else {
                assert(all[k] == c[k]);
            }
        }
    }
}

/// Binding a pipeline binds the per-frame constants set at the reserved
/// index right after the pipeline itself, ahead of every set that the pass
/// declares, when the layout declares a non-empty set there; otherwise no
/// such bind is made. No other bind carries a dynamic offset.
pub proof fn lemma_frame_constants_bound_first(
    p: &ShaderPipelineCommon,
    reg: &ResourceRegistry,
    cmds: Seq<CommandView>,
    lists: Seq<(u32, &[RenderPassBinding])>,
    raw: Seq<(u32, u64)>,
)
    ensures
        ({
            let c = pipeline_bind_model(p, reg, cmds, lists, raw).1;
            let base = cmds.len() as int;
            &&& c.len() > base
            &&& c.subrange(0, base) == cmds
            &&& c[base] == CommandView::BindPipeline { bind_point: p.pipeline_bind_point, pipeline: p.pipeline }
            &&& p.declares_frame_constants() ==> c.len() > base + 1 && c[base + 1]
                == CommandView::BindDescriptorSet {
                bind_point: p.pipeline_bind_point,
                layout: p.pipeline_layout,
                set_index: FRAME_CONSTANTS_SET_INDEX,
                set: DescriptorSetRef::Raw(reg.frame_descriptor_set),
                dynamic_offset: Some(reg.frame_constants_offset),
            }
            &&& forall|k: int|
                base <= k < c.len() && binds_with_dynamic_offset(#[trigger] c[k]) ==> p.declares_frame_constants()
                    && k == base + 1
        }),
{
    let head = cmds.push(CommandView::BindPipeline { bind_point: p.pipeline_bind_point, pipeline: p.pipeline })
        + frame_constants_commands(p, reg.frame_descriptor_set, reg.frame_constants_offset);
    lemma_materialize_extends(p, reg.buffers@, reg.image_views.keys@, head, lists, lists.len());
    let (views, m) = materialize_sets(p, reg.buffers@, reg.image_views.keys@, head, lists, lists.len());
    let rs = raw_set_commands(p, raw);
    let c = m + rs;
    let base = cmds.len() as int;
    assert(m.subrange(0, head.len() as int) == head);
    assert forall|k: int| 0 <= k < head.len() implies c[k] == head[k] by {
        assert(m[k] == m.subrange(0, head.len() as int)[k]);
    }
    assert(c.subrange(0, base) =~= cmds) by {
        assert forall|k: int| 0 <= k < base implies c.subrange(0, base)[k] == cmds[k] by {
            assert(c[k] == head[k]);
        }
    }
    assert(c[base] == head[base]);
    if p.declares_frame_constants() {
        assert(c[base + 1] == head[base + 1]);
    }
    assert forall|k: int|
        base <= k < c.len() && binds_with_dynamic_offset(#[trigger] c[k]) implies p.declares_frame_constants()
            && k == base + 1 by {
        if k >= m.len() {
            assert(c[k] == rs[k - m.len()]);
        } else if k >= head.len() {
            assert(c[k] == m[k]);
        } else {
            assert(c[k] == head[k]);
        }
    }
}

/// A buffer binding resolves to the whole of the buffer that its handle names,
/// and is written as a storage buffer.
pub proof fn lemma_buffer_binding_whole_range(views: ViewKeys, buffers: Seq<u64>, b: RenderPassBinding)
    requires
        b is Buffer,
    ensures
        ({
            let r = resolve_binding(views, buffers, b).1;
            &&& r is Buffer
            &&& r->Buffer_0.offset == 0
            &&& r->Buffer_0.range == WHOLE_SIZE
            &&& r->Buffer_0.buffer == buffers[b->Buffer_0.handle.id as int]
            &&& descriptor_type_of(r) == DescriptorType::StorageBuffer
        }),
{
}

fn resolve_bindings_exec(
    views: &mut ImageViewCache,
    buffers: &Vec<u64>,
    images_len: usize,
    bindings: &[RenderPassBinding],
) -> (r: Vec<DescriptorSetBinding>)
    requires
        old(views).wf(),
        bindings_resolvable(bindings@, images_len as nat, buffers@.len()),
    ensures
        final(views).wf(),
        (final(views).keys@, r@) == resolve_bindings(old(views).keys@, buffers@, bindings@, bindings@.len()),
{
    let mut out: Vec<DescriptorSetBinding> = Vec::new();
    let mut i: usize = 0;
    while i < bindings.len()
        invariant
            i <= bindings@.len(),
            views.wf(),
            bindings_resolvable(bindings@, images_len as nat, buffers@.len()),
            (views.keys@, out@) == resolve_bindings(old(views).keys@, buffers@, bindings@, i as nat),
        decreases bindings@.len() - i,
    {
        let r = match &bindings[i] {
            RenderPassBinding::Image(img) => {
                let view = views.get_or_create(img.handle, img.view_desc);
                DescriptorSetBinding::Image(
                    DescriptorImageInfo { image_view: view as u64, image_layout: img.image_layout },
                )
            },
            RenderPassBinding::Buffer(buf) => {
                assert(bindings_resolvable(bindings@, images_len as nat, buffers@.len()));
                assert(match bindings@[i as int] {
                    RenderPassBinding::Image(img) => img.handle.id < images_len,
                    RenderPassBinding::Buffer(b) => b.handle.id < buffers@.len(),
                });
                DescriptorSetBinding::Buffer(
                    DescriptorBufferInfo { buffer: buffers[buf.handle.id as usize], offset: 0, range: WHOLE_SIZE },
                )
            },
        };
        out.push(r);
        i = i + 1;
    }
    out
}

/// Records a pipeline bind as `pipeline_bind_model` describes it.
fn record_pipeline_bind(
    cb: &mut CommandBuffer,
    views: &mut ImageViewCache,
    reg_buffers: &Vec<u64>,
    images_len: usize,
    frame_set: u64,
    frame_offset: u32,
    p: &ShaderPipelineCommon,
    lists: &Vec<(u32, &[RenderPassBinding])>,
    raw: &Vec<(u32, u64)>,
)
    requires
        p.wf(),
        old(views).wf(),
        set_lists_resolvable(lists@, images_len as nat, reg_buffers@.len()),
    ensures
        final(views).wf(),
        ({
            let head = old(cb)@.push(CommandView::BindPipeline { bind_point: p.pipeline_bind_point, pipeline: p.pipeline })
                + frame_constants_commands(p, frame_set, frame_offset);
            let (v, c) = materialize_sets(p, reg_buffers@, old(views).keys@, head, lists@, lists@.len());
            final(views).keys@ == v && final(cb)@ == c + raw_set_commands(p, raw@)
        }),
{
    cb.record(Command::BindPipeline { bind_point: p.pipeline_bind_point, pipeline: p.pipeline });
    if (FRAME_CONSTANTS_SET_INDEX as usize) < p.set_layout_info.len()
        && p.set_layout_info[FRAME_CONSTANTS_SET_INDEX as usize].len() > 0 {
        cb.record(
            Command::BindDescriptorSet {
                bind_point: p.pipeline_bind_point,
                layout: p.pipeline_layout,
                set_index: FRAME_CONSTANTS_SET_INDEX,
                set: DescriptorSetRef::Raw(frame_set),
                dynamic_offset: Some(frame_offset),
            },
        );
    }
    let ghost head = cb@;
    assert(head =~= old(cb)@.push(CommandView::BindPipeline { bind_point: p.pipeline_bind_point, pipeline: p.pipeline })
        + frame_constants_commands(p, frame_set, frame_offset));
    let mut k: usize = 0;
    while k < lists.len()
        invariant
            k <= lists@.len(),
            p.wf(),
            views.wf(),
            set_lists_resolvable(lists@, images_len as nat, reg_buffers@.len()),
            (views.keys@, cb@) == materialize_sets(p, reg_buffers@, old(views).keys@, head, lists@, k as nat),
        decreases lists@.len() - k,
    {
        let (set_index, bindings) = lists[k];
        assert(bindings_resolvable(lists@[k as int].1@, images_len as nat, reg_buffers@.len()));
        let resolved = resolve_bindings_exec(views, reg_buffers, images_len, bindings);
        bind_descriptor_set(cb, p, set_index, &resolved);
        k = k + 1;
    }
    let ghost mid = cb@;
    let mut j: usize = 0;
    while j < raw.len()
        invariant
            j <= raw@.len(),
            cb@ == mid + raw_set_commands(p, raw@.subrange(0, j as int)),
        decreases raw@.len() - j,
    {
        let (set_index, set) = raw[j];
        cb.record(
            Command::BindDescriptorSet {
                bind_point: p.pipeline_bind_point,
                layout: p.pipeline_layout,
                set_index,
                set: DescriptorSetRef::Raw(set),
                dynamic_offset: None,
            },
        );
        j = j + 1;
        assert(raw_set_commands(p, raw@.subrange(0, j as int)) =~= raw_set_commands(p, raw@.subrange(0, j - 1)).push(
            CommandView::BindDescriptorSet {
                bind_point: p.pipeline_bind_point,
                layout: p.pipeline_layout,
                set_index,
                set: DescriptorSetRef::Raw(set),
                dynamic_offset: None,
            },
        ));
        assert(cb@ =~= mid + raw_set_commands(p, raw@.subrange(0, j as int)));
    }
    assert(raw@.subrange(0, raw@.len() as int) =~= raw@);
}

/// The registry apart from its image views is the same in both.
pub open spec fn same_registry_but_views(a: &ResourceRegistry, b: &ResourceRegistry) -> bool {
    &&& a.device == b.device
    &&& a.images@ == b.images@
    &&& a.buffers@ == b.buffers@
    &&& a.compute_pipelines@ == b.compute_pipelines@
    &&& a.raster_pipelines@ == b.raster_pipelines@
    &&& a.frame_descriptor_set == b.frame_descriptor_set
    &&& a.frame_constants_offset == b.frame_constants_offset
}

/// The attachments of a render pass, colors first and depth last.
pub open spec fn attachment_list(
    colors: Seq<(Ref<Image, GpuRt>, ImageViewDesc)>,
    depth: Option<(Ref<Image, GpuRt>, ImageViewDesc)>,
) -> ViewKeys {
    let c = colors.map_values(|a: (Ref<Image, GpuRt>, ImageViewDesc)| (a.0.handle, a.1));
    match depth {
        Some(d) => c.push((d.0.handle, d.1)),
        None => c,
    }
}

/// The views of the first `n` attachments, looked up or made in order.
pub open spec fn attachment_views(views: ViewKeys, list: ViewKeys, n: nat) -> (ViewKeys, Seq<u64>)
    decreases n,
{
    if n == 0 {
        (views, Seq::empty())
    } else {
        let (v, ids) = attachment_views(views, list, (n - 1) as nat);
        let (after, id) = memo_insert(v, list[n - 1]);
        (after, ids.push(id as u64))
    }
}

/// The framebuffer cache key of a render pass: its dimensions and the
/// descriptor of each attachment image.
pub open spec fn framebuffer_key(
    images: Seq<ImageDesc>,
    dims: [u32; 2],
    colors: Seq<(Ref<Image, GpuRt>, ImageViewDesc)>,
    depth: Option<(Ref<Image, GpuRt>, ImageViewDesc)>,
) -> FramebufferCacheKeyView {
    FramebufferCacheKeyView {
        width: dims@[0],
        height: dims@[1],
        color_attachments: colors.map_values(
            |a: (Ref<Image, GpuRt>, ImageViewDesc)| images[a.0.handle.id as int],
        ),
        depth_attachment: match depth {
            Some(d) => Some(images[d.0.handle.id as int]),
            None => None,
        },
    }
}

/// Groups needed to cover `threads` with groups of `group` threads.
pub open spec fn ceil_div(threads: u32, group: u32) -> int {
    (threads + group - 1) / (group as int)
}

/// The group count is the least number of groups that covers the threads:
/// enough groups, and one fewer would not be.
pub proof fn lemma_group_count_is_ceiling(threads: u32, group: u32)
    requires
        group > 0,
    ensures
        ceil_div(threads, group) * group >= threads,
        (ceil_div(threads, group) - 1) * group < threads || threads == 0,
        ceil_div(threads, group) >= 0,
{
    let t = threads as int;
    let g = group as int;
    let c = ceil_div(threads, group);
    assert(c == (t + g - 1) / g);
    assert((t + g - 1) == g * ((t + g - 1) / g) + (t + g - 1) % g) by (nonlinear_arith)
        requires g > 0;
    assert(0 <= (t + g - 1) % g < g) by (nonlinear_arith)
        requires g > 0;
    assert(c * g >= t) by (nonlinear_arith)
        requires t + g - 1 == g * c + (t + g - 1) % g, (t + g - 1) % g < g;
    assert((c - 1) * g < t || t == 0) by (nonlinear_arith)
        requires t + g - 1 == g * c + (t + g - 1) % g, (t + g - 1) % g >= 0, t >= 0;
    assert(c >= 0) by (nonlinear_arith)
        requires c == (t + g - 1) / g, g > 0, t >= 0;
}

fn group_count(threads: u32, group: u32) -> (r: u32)
    requires
        group > 0,
    ensures
        r == ceil_div(threads, group),
{
    let q = threads / group;
    let rem = threads % group;
    proof {
        let t = threads as int;
        let g = group as int;
        assert(t == g * (q as int) + rem as int) by (nonlinear_arith)
            requires q as int == t / g, rem as int == t % g, g > 0;
        if rem == 0 {
            assert((t + g - 1) / g == q as int) by (nonlinear_arith)
                requires t == g * (q as int), g > 0;
        } else {
            assert((t + g - 1) / g == q as int + 1) by (nonlinear_arith)
                requires t == g * (q as int) + rem as int, 0 < rem < g;
        }
    }
    if rem == 0 {
        q
    } else {
        assert(q < u32::MAX) by (nonlinear_arith)
            requires q as int == threads as int / group as int, group > 0, rem > 0, rem as int == threads as int % group as int;
        q + 1
    }
}

impl RenderPassApi {
    pub open spec fn wf(&self) -> bool {
        self.resources.wf()
    }

    pub fn device(&self) -> (r: &Device)
        ensures
            r == &self.resources.device,
    {
        &self.resources.device
    }

    /// Binds a compute pipeline: the pipeline, the per-frame constants where
    /// its layout declares them, each declared set, then the caller-made sets.
    pub fn bind_compute_pipeline(&mut self, binding: RenderPassComputePipelineBinding<'_>) -> (r:
        BoundComputePipeline)
        requires
            old(self).wf(),
            binding.pipeline.id < old(self).resources.compute_pipelines@.len(),
            set_lists_resolvable(
                binding.bindings@,
                old(self).resources.images@.len(),
                old(self).resources.buffers@.len(),
            ),
        ensures
            final(self).wf(),
            same_registry_but_views(&final(self).resources, &old(self).resources),
            ({
                let p = &old(self).resources.compute_pipelines@[binding.pipeline.id as int];
                let (views, cmds) = pipeline_bind_model(
                    &p.common,
                    &old(self).resources,
                    old(self).cb@,
                    binding.bindings@,
                    binding.raw_bindings@,
                );
                &&& final(self).resources.image_views.keys@ == views
                &&& final(self).cb@ == cmds
                &&& r.pipeline == binding.pipeline
                &&& r.group_size == p.group_size
            }),
            r.wf(),
    {
        let id = binding.pipeline.id;
        let images_len = self.resources.images.len();
        let frame_set = self.resources.frame_descriptor_set;
        let frame_offset = self.resources.frame_constants_offset;
        assert(self.resources.compute_pipelines@[id as int].wf());
        let pipeline = &self.resources.compute_pipelines[id];
        record_pipeline_bind(
            &mut self.cb,
            &mut self.resources.image_views,
            &self.resources.buffers,
            images_len,
            frame_set,
            frame_offset,
            &pipeline.common,
            &binding.bindings,
            &binding.raw_bindings,
        );
        BoundComputePipeline { pipeline: binding.pipeline, group_size: pipeline.group_size }
    }

    /// Binds a raster pipeline, as `bind_compute_pipeline` does.
    pub fn bind_raster_pipeline(&mut self, binding: RenderPassRasterPipelineBinding<'_>) -> (r:
        BoundRasterPipeline)
        requires
            old(self).wf(),
            binding.pipeline.id < old(self).resources.raster_pipelines@.len(),
            set_lists_resolvable(
                binding.bindings@,
                old(self).resources.images@.len(),
                old(self).resources.buffers@.len(),
            ),
        ensures
            final(self).wf(),
            same_registry_but_views(&final(self).resources, &old(self).resources),
            ({
                let p = &old(self).resources.raster_pipelines@[binding.pipeline.id as int];
                let (views, cmds) = pipeline_bind_model(
                    &p.common,
                    &old(self).resources,
                    old(self).cb@,
                    binding.bindings@,
                    binding.raw_bindings@,
                );
                &&& final(self).resources.image_views.keys@ == views
                &&& final(self).cb@ == cmds
                &&& r.pipeline == binding.pipeline
            }),
    {
        let id = binding.pipeline.id;
        let images_len = self.resources.images.len();
        let frame_set = self.resources.frame_descriptor_set;
        let frame_offset = self.resources.frame_constants_offset;
        assert(self.resources.raster_pipelines@[id as int].wf());
        let pipeline = &self.resources.raster_pipelines[id];
        record_pipeline_bind(
            &mut self.cb,
            &mut self.resources.image_views,
            &self.resources.buffers,
            images_len,
            frame_set,
            frame_offset,
            &pipeline.common,
            &binding.bindings,
            &binding.raw_bindings,
        );
        BoundRasterPipeline { pipeline: binding.pipeline }
    }
}

impl RenderPassApi {
    /// Begins `render_pass` on a framebuffer looked up, or made once, by the
    /// shape and formats of the attachments, handing it the attachments'
    /// views (colors first, depth last).
    pub fn begin_render_pass(
        &mut self,
        render_pass: &mut RenderPass,
        dims: [u32; 2],
        color_attachments: &[(Ref<Image, GpuRt>, ImageViewDesc)],
        depth_attachment: Option<(Ref<Image, GpuRt>, ImageViewDesc)>,
    )
        requires
            old(self).wf(),
            old(render_pass).framebuffer_cache.wf(),
            color_attachments@.len() <= MAX_COLOR_ATTACHMENTS,
            forall|i: int|
                0 <= i < color_attachments@.len() ==> (#[trigger] color_attachments@[i]).0.handle.id
                    < old(self).resources.images@.len(),
            depth_attachment matches Some(d) ==> d.0.handle.id < old(self).resources.images@.len(),
        ensures
            final(self).wf(),
            final(render_pass).framebuffer_cache.wf(),
            final(render_pass).raw == old(render_pass).raw,
            same_registry_but_views(&final(self).resources, &old(self).resources),
            ({
                let key = framebuffer_key(
                    old(self).resources.images@,
                    dims,
                    color_attachments@,
                    depth_attachment,
                );
                let (fb_keys, fb) = memo_insert(old(render_pass).framebuffer_cache.view_keys(), key);
                let list = attachment_list(color_attachments@, depth_attachment);
                let (views, ids) = attachment_views(old(self).resources.image_views.keys@, list, list.len());
                &&& final(render_pass).framebuffer_cache.view_keys() == fb_keys
                &&& final(self).resources.image_views.keys@ == views
                &&& final(self).cb@ == old(self).cb@.push(
                    CommandView::BeginRenderPass {
                        render_pass: old(render_pass).raw,
                        framebuffer: fb as u64,
                        width: dims@[0],
                        height: dims@[1],
                        attachments: ids,
                    },
                )
            }),
    {
        let ghost key = framebuffer_key(self.resources.images@, dims, color_attachments@, depth_attachment);
        let mut color_descs: Vec<ImageDesc> = Vec::new();
        let mut i: usize = 0;
        while i < color_attachments.len()
            invariant
                i <= color_attachments@.len(),
                forall|j: int|
                    0 <= j < color_attachments@.len() ==> (#[trigger] color_attachments@[j]).0.handle.id
                        < self.resources.images@.len(),
                color_descs@ == key.color_attachments.subrange(0, i as int),
                key == framebuffer_key(self.resources.images@, dims, color_attachments@, depth_attachment),
            decreases color_attachments@.len() - i,
        {
            let h = color_attachments[i].0.handle;
            color_descs.push(self.resources.images[h.id as usize]);
            i = i + 1;
            assert(color_descs@ =~= key.color_attachments.subrange(0, i as int));
        }
        assert(key.color_attachments.subrange(0, i as int) =~= key.color_attachments);
        let depth_desc = match &depth_attachment {
            Some(d) => Some(self.resources.images[d.0.handle.id as usize]),
            None => None,
        };
        let fb_key = FramebufferCacheKey {
            width: dims[0],
            height: dims[1],
            color_attachments: color_descs,
            depth_attachment: depth_desc,
        };
        assert(fb_key@ == key);
        let framebuffer = render_pass.framebuffer_cache.get_or_create(fb_key);

        let ghost list = attachment_list(color_attachments@, depth_attachment);
        let ghost old_views = self.resources.image_views.keys@;
        let mut views = attachments_new();
        let mut k: usize = 0;
        while k < color_attachments.len()
            invariant
                k <= color_attachments@.len(),
                color_attachments@.len() <= MAX_COLOR_ATTACHMENTS,
                self.wf(),
                same_registry_but_views(&self.resources, &old(self).resources),
                self.cb@ == old(self).cb@,
                list == attachment_list(color_attachments@, depth_attachment),
                (self.resources.image_views.keys@, attachment_items(views)) == attachment_views(
                    old_views,
                    list,
                    k as nat,
                ),
            decreases color_attachments@.len() - k,
        {
            proof {
                lemma_attachment_views_len(old_views, list, k as nat);
            }
            let (r, desc) = &color_attachments[k];
            assert(list[k as int] == (r.handle, *desc));
            let view = self.resources.image_views.get_or_create(r.handle, *desc);
            attachments_push(&mut views, view as u64);
            k = k + 1;
        }
        assert(list.len() == color_attachments@.len() + if depth_attachment is Some { 1int } else { 0int });
        match &depth_attachment {
            Some(d) => {
                proof {
                    lemma_attachment_views_len(old_views, list, k as nat);
                }
                assert(list[k as int] == (d.0.handle, d.1));
                let view = self.resources.image_views.get_or_create(d.0.handle, d.1);
                attachments_push(&mut views, view as u64);
                assert((self.resources.image_views.keys@, attachment_items(views)) == attachment_views(
                    old_views,
                    list,
                    (k + 1) as nat,
                ));
            },
            None => {},
        }
        let attachments = attachments_to_vec(&views);
        self.cb.record(
            Command::BeginRenderPass {
                render_pass: render_pass.raw,
                framebuffer: framebuffer as u64,
                width: dims[0],
                height: dims[1],
                attachments,
            },
        );
    }

    pub fn end_render_pass(&mut self)
        ensures
            final(self).resources == old(self).resources,
            final(self).cb@ == old(self).cb@.push(CommandView::EndRenderPass),
    {
        self.cb.record(Command::EndRenderPass);
    }

    /// A viewport over the whole target with the vertical axis flipped, and a
    /// scissor over the same area.
    pub fn set_default_view_and_scissor(&mut self, dims: [u32; 2])
        ensures
            final(self).resources == old(self).resources,
            final(self).cb@ == old(self).cb@.push(
                CommandView::SetViewport {
                    x: 0,
                    y: dims@[1] as i64,
                    width: dims@[0] as i64,
                    height: (-(dims@[1] as int)) as i64,
                },
            ).push(CommandView::SetScissor { x: 0, y: 0, width: dims@[0], height: dims@[1] }),
    {
        let width = dims[0];
        let height = dims[1];
        self.cb.record(
            Command::SetViewport { x: 0, y: height as i64, width: width as i64, height: -(height as i64) },
        );
        self.cb.record(Command::SetScissor { x: 0, y: 0, width, height });
    }
}

proof fn lemma_attachment_views_len(views: ViewKeys, list: ViewKeys, n: nat)
    ensures
        attachment_views(views, list, n).1.len() == n,
    decreases n,
{
    if n > 0 {
        lemma_attachment_views_len(views, list, (n - 1) as nat);
    }
}

pub struct BoundComputePipeline {
    pub pipeline: RgComputePipelineHandle,
    pub group_size: [u32; 3],
}

impl BoundComputePipeline {
    pub open spec fn wf(&self) -> bool {
        self.group_size@[0] > 0 && self.group_size@[1] > 0 && self.group_size@[2] > 0
    }

    /// Dispatches enough groups to cover `threads` along each axis.
    pub fn dispatch(&self, api: &mut RenderPassApi, threads: [u32; 3])
        requires
            self.wf(),
        ensures
            final(api).resources == old(api).resources,
            final(api).cb@ == old(api).cb@.push(
                CommandView::Dispatch {
                    x: ceil_div(threads@[0], self.group_size@[0]) as u32,
                    y: ceil_div(threads@[1], self.group_size@[1]) as u32,
                    z: ceil_div(threads@[2], self.group_size@[2]) as u32,
                },
            ),
    {
        let x = group_count(threads[0], self.group_size[0]);
        let y = group_count(threads[1], self.group_size[1]);
        let z = group_count(threads[2], self.group_size[2]);
        api.cb.record(Command::Dispatch { x, y, z });
    }
}

pub struct BoundRasterPipeline {
    pub pipeline: RgRasterPipelineHandle,
}

impl BoundRasterPipeline {
    pub fn draw(
        &self,
        api: &mut RenderPassApi,
        vertex_count: u32,
        instance_count: u32,
        first_vertex: u32,
        first_instance: u32,
    )
        ensures
            final(api).resources == old(api).resources,
            final(api).cb@ == old(api).cb@.push(
                CommandView::Draw { vertex_count, instance_count, first_vertex, first_instance },
            ),
    {
        api.cb.record(Command::Draw { vertex_count, instance_count, first_vertex, first_instance });
    }
}
} // verus!
