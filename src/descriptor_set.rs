//! Descriptor set materialization: a transient set holding exactly the
//! bindings that the pipeline's layout declares.
use crate::command::{
    Command, CommandBuffer, CommandView, DescriptorPoolSize, DescriptorSetBinding, DescriptorSetRef,
    DescriptorType, DescriptorWrite,
};
use crate::pipeline::ShaderPipelineCommon;
use crate::resource::ImageLayout;
use vstd::prelude::*;

verus! {

/// The descriptor type under which a resolved binding is written.
pub open spec fn descriptor_type_of(b: DescriptorSetBinding) -> DescriptorType {
    match b {
        DescriptorSetBinding::Image(info) => match info.image_layout {
            ImageLayout::ShaderReadOnlyOptimal => DescriptorType::SampledImage,
            ImageLayout::General => DescriptorType::StorageImage,
        },
        DescriptorSetBinding::Buffer(_) => DescriptorType::StorageBuffer,
    }
}

/// The writes for the first `n` bindings: one for each binding whose index
/// the layout declares, in order of index.
pub open spec fn writes_for(
    declared: Seq<u32>,
    set: DescriptorSetRef,
    bindings: Seq<DescriptorSetBinding>,
    n: nat,
) -> Seq<DescriptorWrite>
    decreases n,
{
    if n == 0 {
        Seq::empty()
    } else {
        let i = (n - 1) as nat;
        let before = writes_for(declared, set, bindings, i);
        if i <= u32::MAX && declared.contains(i as u32) {
            before.push(
                DescriptorWrite {
                    dst_set: set,
                    dst_binding: i as u32,
                    descriptor_type: descriptor_type_of(bindings[i as int]),
                    info: bindings[i as int],
                },
            )
        } else {
            before
        }
    }
}

/// What binding `bindings` at `set_index` records, where the set it allocates
/// is named by position `at`: nothing where the layout has no such set; else
/// the allocation, the batched writes and the bind.
pub open spec fn descriptor_set_commands(
    p: &ShaderPipelineCommon,
    set_index: u32,
    bindings: Seq<DescriptorSetBinding>,
    at: nat,
) -> Seq<CommandView> {
    if set_index < p.set_layout_info@.len() {
        let set = DescriptorSetRef::Transient(at as u64);
        seq![
            CommandView::AllocateDescriptorSet {
                set_layout: p.descriptor_set_layouts@[set_index as int],
                pool_sizes: p.descriptor_pool_sizes@,
            },
            CommandView::UpdateDescriptorSets {
                writes: writes_for(p.declared(set_index as int), set, bindings, bindings.len()),
            },
            CommandView::BindDescriptorSet {
                bind_point: p.pipeline_bind_point,
                layout: p.pipeline_layout,
                set_index,
                set,
                dynamic_offset: None,
            },
        ]
    } else {
        Seq::empty()
    }
}

fn contains_index(v: &Vec<u32>, x: u32) -> (r: bool)
    ensures
        r == v@.contains(x),
{
    let mut i: usize = 0;
    while i < v.len()
        invariant
            forall|j: int| 0 <= j < i ==> v@[j] != x,
        decreases v@.len() - i,
    {
        if v[i] == x {
            assert(v@[i as int] == x);
            return true;
        }
        i = i + 1;
    }
    false
}

fn copy_pool_sizes(v: &Vec<DescriptorPoolSize>) -> (r: Vec<DescriptorPoolSize>)
    ensures
        r@ == v@,
{
    let mut r: Vec<DescriptorPoolSize> = Vec::new();
    let mut i: usize = 0;
    while i < v.len()
        invariant
            i <= v@.len(),
            r@ == v@.subrange(0, i as int),
        decreases v@.len() - i,
    {
        r.push(v[i]);
        i = i + 1;
        assert(r@ =~= v@.subrange(0, i as int));
    }
    assert(v@.subrange(0, v@.len() as int) =~= v@);
    r
}

/// Every write targets a binding index that the layout declares, carries the
/// binding found at that index, and has the descriptor type of that binding.
pub proof fn lemma_writes_only_declared(
    declared: Seq<u32>,
    set: DescriptorSetRef,
    bindings: Seq<DescriptorSetBinding>,
    n: nat,
)
    requires
        n <= bindings.len(),
    ensures
        forall|k: int|
            0 <= k < writes_for(declared, set, bindings, n).len() ==> {
                let w = #[trigger] writes_for(declared, set, bindings, n)[k];
                &&& declared.contains(w.dst_binding)
                &&& w.dst_binding < n
                &&& w.dst_set == set
                &&& w.info == bindings[w.dst_binding as int]
                &&& w.descriptor_type == descriptor_type_of(w.info)
            },
    decreases n,
{
    if n > 0 {
        lemma_writes_only_declared(declared, set, bindings, (n - 1) as nat);
    }
}

/// Materializing a descriptor set never writes a binding index that the
/// pipeline's layout leaves out of that set, whatever the binding list holds;
/// a buffer binding is always written as a storage buffer.
pub proof fn lemma_materialization_writes_declared(
    p: &ShaderPipelineCommon,
    set_index: u32,
    bindings: Seq<DescriptorSetBinding>,
    at: nat,
)
    ensures
        forall|k: int|
            0 <= k < descriptor_set_commands(p, set_index, bindings, at).len() ==> {
                let c = #[trigger] descriptor_set_commands(p, set_index, bindings, at)[k];
                c is UpdateDescriptorSets ==> forall|j: int|
                    0 <= j < c->UpdateDescriptorSets_writes.len() ==> {
                        let w = #[trigger] c->UpdateDescriptorSets_writes[j];
                        &&& p.declared(set_index as int).contains(w.dst_binding)
                        &&& (w.info is Buffer ==> w.descriptor_type == DescriptorType::StorageBuffer)
                    }
            },
{
    lemma_writes_only_declared(
        p.declared(set_index as int),
        DescriptorSetRef::Transient(at as u64),
        bindings,
        bindings.len(),
    );
}

/// Records a transient descriptor set for `set_index` holding those of
/// `bindings` (by position) that the layout declares, and binds it.
/// A set index that the layout lacks records nothing.
pub fn bind_descriptor_set(
    cb: &mut CommandBuffer,
    pipeline: &ShaderPipelineCommon,
    set_index: u32,
    bindings: &Vec<DescriptorSetBinding>,
)
    requires
        pipeline.wf(),
    ensures
        final(cb)@ == old(cb)@ + descriptor_set_commands(pipeline, set_index, bindings@, old(cb)@.len()),
{
    if set_index as usize >= pipeline.set_layout_info.len() {
        assert(old(cb)@ + Seq::<CommandView>::empty() =~= old(cb)@);
        return;
    }
    let shader_set_info = &pipeline.set_layout_info[set_index as usize];
    let ghost at = cb@.len();
    let set = DescriptorSetRef::Transient(cb.len() as u64);
    cb.record(
        Command::AllocateDescriptorSet {
            set_layout: pipeline.descriptor_set_layouts[set_index as usize],
            pool_sizes: copy_pool_sizes(&pipeline.descriptor_pool_sizes),
        },
    );
    let mut writes: Vec<DescriptorWrite> = Vec::new();
    let mut i: usize = 0;
    while i < bindings.len()
        invariant
            i <= bindings@.len(),
            shader_set_info@ == pipeline.declared(set_index as int),
            writes@ == writes_for(shader_set_info@, set, bindings@, i as nat),
        decreases bindings@.len() - i,
    {
        if i <= u32::MAX as usize && contains_index(shader_set_info, i as u32) {
            let b = bindings[i];
            let descriptor_type = match b {
                DescriptorSetBinding::Image(info) => match info.image_layout {
                    ImageLayout::ShaderReadOnlyOptimal => DescriptorType::SampledImage,
                    ImageLayout::General => DescriptorType::StorageImage,
                },
                DescriptorSetBinding::Buffer(_) => DescriptorType::StorageBuffer,
            };
            writes.push(DescriptorWrite { dst_set: set, dst_binding: i as u32, descriptor_type, info: b });
        }
        i = i + 1;
    }
    cb.record(Command::UpdateDescriptorSets { writes });
    cb.record(
        Command::BindDescriptorSet {
            bind_point: pipeline.pipeline_bind_point,
            layout: pipeline.pipeline_layout,
            set_index,
            set,
            dynamic_offset: None,
        },
    );
    assert(cb@ =~= old(cb)@ + descriptor_set_commands(pipeline, set_index, bindings@, at));
}

} // verus!
