//! Framebuffers of imageless render passes, cached by the shape and formats
//! of their attachments.
use crate::registry::{memo_insert, no_dups, lemma_memo_insert, lemma_memo_insert_new, ImageDesc};
use vstd::prelude::*;

verus! {

/// Output dimensions and the descriptor of each attachment image.
pub struct FramebufferCacheKey {
    pub width: u32,
    pub height: u32,
    pub color_attachments: Vec<ImageDesc>,
    pub depth_attachment: Option<ImageDesc>,
}

pub struct FramebufferCacheKeyView {
    pub width: u32,
    pub height: u32,
    pub color_attachments: Seq<ImageDesc>,
    pub depth_attachment: Option<ImageDesc>,
}

impl View for FramebufferCacheKey {
    type V = FramebufferCacheKeyView;

    open spec fn view(&self) -> FramebufferCacheKeyView {
        FramebufferCacheKeyView {
            width: self.width,
            height: self.height,
            color_attachments: self.color_attachments@,
            depth_attachment: self.depth_attachment,
        }
    }
}

impl FramebufferCacheKey {
    /// Same dimensions and the same attachment descriptors.
    pub fn same_as(&self, other: &FramebufferCacheKey) -> (r: bool)
        ensures
            r == (self@ == other@),
    {
        if self.width != other.width || self.height != other.height
            || self.depth_attachment != other.depth_attachment
            || self.color_attachments.len() != other.color_attachments.len() {
            return false;
        }
        let mut i: usize = 0;
        while i < self.color_attachments.len()
            invariant
                self.color_attachments@.len() == other.color_attachments@.len(),
                forall|j: int| 0 <= j < i ==> self.color_attachments@[j] == other.color_attachments@[j],
            decreases self.color_attachments@.len() - i,
        {
            if self.color_attachments[i] != other.color_attachments[i] {
                return false;
            }
            i = i + 1;
        }
        assert(self.color_attachments@ =~= other.color_attachments@);
        true
    }
}

/// Framebuffers by key; a framebuffer is named by its position.
pub struct FramebufferCache {
    pub keys: Vec<FramebufferCacheKey>,
}

impl FramebufferCache {
    pub open spec fn view_keys(&self) -> Seq<FramebufferCacheKeyView> {
        self.keys@.map_values(|k: FramebufferCacheKey| k@)
    }

    pub open spec fn wf(&self) -> bool {
        no_dups(self.view_keys())
    }

    pub fn new() -> (r: Self)
        ensures
            r.wf(),
            r.view_keys().len() == 0,
    {
        let r = FramebufferCache { keys: Vec::new() };
        assert(r.view_keys() =~= Seq::<FramebufferCacheKeyView>::empty());
        r
    }

    /// The framebuffer for `key`, made at most once per distinct key.
    pub fn get_or_create(&mut self, key: FramebufferCacheKey) -> (r: usize)
        requires
            old(self).wf(),
        ensures
            final(self).wf(),
            (final(self).view_keys(), r as int) == memo_insert(old(self).view_keys(), key@),
    {
        let mut i: usize = 0;
        while i < self.keys.len()
            invariant
                self.wf(),
                self.keys@ == old(self).keys@,
                    forall|j: int| 0 <= j < i ==> self.view_keys()[j] != key@,
            decreases self.keys@.len() - i,
        {
            if self.keys[i].same_as(&key) {
                proof {
                    lemma_memo_insert(self.view_keys(), key@, i as int);
                }
                return i;
            }
            i = i + 1;
        }
        proof {
            lemma_memo_insert_new(self.view_keys(), key@);
        }
        let n = self.keys.len();
        let ghost k = key@;
        self.keys.push(key);
        assert(self.view_keys() =~= old(self).view_keys().push(k));
        n
    }
}

/// A render pass object with the framebuffers made for it.
pub struct RenderPass {
    pub raw: u64,
    pub framebuffer_cache: FramebufferCache,
}

/// Two lookups with identical keys yield the same framebuffer, and
/// lookups with keys that differ in anything yield different ones.
pub proof fn lemma_framebuffer_reuse(
    keys: Seq<FramebufferCacheKeyView>,
    first: FramebufferCacheKeyView,
    second: FramebufferCacheKeyView,
)
    requires
        no_dups(keys),
    ensures
        ({
            let (after_first, a) = memo_insert(keys, first);
            let (after_second, b) = memo_insert(after_first, second);
            (a == b) == (first == second)
        }),
{
    let (s1, a) = memo_insert(keys, first);
    if keys.contains(first) {
        let i = choose|i: int| 0 <= i < keys.len() && keys[i] == first;
        lemma_memo_insert(keys, first, i);
    } else {
        lemma_memo_insert_new(keys, first);
    }
    assert(no_dups(s1));
    assert(0 <= a < s1.len() && s1[a] == first);
    let (s2, b) = memo_insert(s1, second);
    if s1.contains(second) {
        let j = choose|j: int| 0 <= j < s1.len() && s1[j] == second;
        lemma_memo_insert(s1, second, j);
        assert(s1[b] == second);
    } else {
        lemma_memo_insert_new(s1, second);
        assert(b == s1.len());
    }
}

} // verus!
