//! The resource registry as this layer sees it: graph handles resolved to
//! device objects, the per-frame descriptor set, and the compiled pipelines.
use crate::pipeline::{ComputePipeline, RasterPipeline};
use crate::resource::{GraphRawResourceHandle, ImageViewDesc};
use vstd::prelude::*;

verus! {

/// No key occurs twice.
pub open spec fn no_dups<K>(s: Seq<K>) -> bool {
    forall|i: int, j: int| 0 <= i < s.len() && 0 <= j < s.len() && s[i] == s[j] ==> i == j
}

/// A memoizing store keyed by value: the position of `k` where it is already
/// held, else `k` appended at the end.
pub open spec fn memo_insert<K>(s: Seq<K>, k: K) -> (Seq<K>, int) {
    if s.contains(k) {
        (s, choose|i: int| 0 <= i < s.len() && s[i] == k)
    } else {
        (s.push(k), s.len() as int)
    }
}

pub proof fn lemma_memo_insert<K>(s: Seq<K>, k: K, i: int)
    requires
        no_dups(s),
        0 <= i < s.len(),
        s[i] == k,
    ensures
        memo_insert(s, k) == (s, i),
{
    assert(s.contains(k));
    let j = choose|j: int| 0 <= j < s.len() && s[j] == k;
    assert(s[j] == k);
}

pub proof fn lemma_memo_insert_new<K>(s: Seq<K>, k: K)
    requires
        no_dups(s),
        !s.contains(k),
    ensures
        no_dups(s.push(k)),
        memo_insert(s, k) == (s.push(k), s.len() as int),
{
    let t = s.push(k);
    assert forall|i: int, j: int| 0 <= i < t.len() && 0 <= j < t.len() && t[i] == t[j] implies i == j by {
        if i < s.len() && j == s.len() {
            assert(s.contains(s[i]));
        }
        if j < s.len() && i == s.len() {
            assert(s.contains(s[j]));
        }
    }
}

/// What the registry knows of an image.
#[derive(Clone, Copy, Debug, PartialEq, Eq, Structural)]
pub struct ImageDesc {
    pub format: u32,
    pub width: u32,
    pub height: u32,
    pub depth: u32,
    pub mip_levels: u32,
    pub sample_count: u32,
    pub usage: u32,
}

/// Image views by (image, view description); a view is named by its position.
pub struct ImageViewCache {
    pub keys: Vec<(GraphRawResourceHandle, ImageViewDesc)>,
}

impl ImageViewCache {
    pub open spec fn wf(&self) -> bool {
        no_dups(self.keys@)
    }

    pub fn new() -> (r: Self)
        ensures
            r.wf(),
            r.keys@.len() == 0,
    {
        ImageViewCache { keys: Vec::new() }
    }

    /// The view of `handle` described by `desc`, added where none was made yet.
    pub fn get_or_create(&mut self, handle: GraphRawResourceHandle, desc: ImageViewDesc) -> (r: usize)
        requires
            old(self).wf(),
        ensures
            final(self).wf(),
            (final(self).keys@, r as int) == memo_insert(old(self).keys@, (handle, desc)),
    {
        let mut i: usize = 0;
        while i < self.keys.len()
            invariant
                self.wf(),
                self.keys@ == old(self).keys@,
                    forall|j: int| 0 <= j < i ==> self.keys@[j] != (handle, desc),
            decreases self.keys@.len() - i,
        {
            let (h, d) = self.keys[i];
            if h == handle && d == desc {
                proof {
                    lemma_memo_insert(self.keys@, (handle, desc), i as int);
                }
                return i;
            }
            i = i + 1;
        }
        proof {
            lemma_memo_insert_new(self.keys@, (handle, desc));
        }
        let n = self.keys.len();
        self.keys.push((handle, desc));
        n
    }
}

/// The device against which commands are recorded.
pub struct Device {
    pub raw: u64,
}

pub struct ResourceRegistry {
    pub device: Device,
    /// Images by graph handle id.
    pub images: Vec<ImageDesc>,
    /// Device buffers by graph handle id.
    pub buffers: Vec<u64>,
    pub image_views: ImageViewCache,
    pub compute_pipelines: Vec<ComputePipeline>,
    pub raster_pipelines: Vec<RasterPipeline>,
    /// The per-frame constants set, bound at the reserved index.
    pub frame_descriptor_set: u64,
    pub frame_constants_offset: u32,
}

impl ResourceRegistry {
    pub open spec fn wf(&self) -> bool {
        &&& self.image_views.wf()
        &&& forall|i: int| 0 <= i < self.compute_pipelines@.len() ==> #[trigger] self.compute_pipelines@[i].wf()
        &&& forall|i: int| 0 <= i < self.raster_pipelines@.len() ==> #[trigger] self.raster_pipelines@[i].wf()
    }
}

} // verus!
