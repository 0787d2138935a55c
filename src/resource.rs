//! Graph resource references and the bindings made from them.
use core::marker::PhantomData;
use vstd::prelude::*;

verus! {

/// Graph-scoped identifier of an image or buffer; resolved through the
/// resource registry when a pass is executed.
#[derive(Clone, Copy, Debug, PartialEq, Eq, Structural)]
pub struct GraphRawResourceHandle {
    pub id: u32,
}

/// Resource kind marker: an image.
pub struct Image;

/// Resource kind marker: a buffer.
pub struct Buffer;

/// Access mode marker: read in a shader.
pub struct GpuSrv;

/// Access mode marker: written in a shader.
pub struct GpuUav;

/// Access mode marker: used as a render target.
pub struct GpuRt;

/// A graph resource reference whose kind and access mode are fixed by its type.
pub struct Ref<ResType, ViewType> {
    pub handle: GraphRawResourceHandle,
    pub marker: PhantomData<(ResType, ViewType)>,
}

impl<ResType, ViewType> Ref<ResType, ViewType> {
    pub fn new(handle: GraphRawResourceHandle) -> (r: Self)
        ensures
            r.handle == handle,
    {
        Ref { handle, marker: PhantomData }
    }
}

/// Image layouts in which a shader binding may see an image.
#[derive(Clone, Copy, Debug, PartialEq, Eq, Structural)]
pub enum ImageLayout {
    General,
    ShaderReadOnlyOptimal,
}

/// How an image is viewed by a binding or an attachment.
#[derive(Clone, Copy, Debug, PartialEq, Eq, Structural)]
pub struct ImageViewDesc {
    pub view_type: Option<u32>,
    pub format: Option<u32>,
    pub aspect_mask: u32,
    pub base_mip_level: u32,
    pub level_count: Option<u32>,
}

pub struct RenderPassImageBinding {
    pub handle: GraphRawResourceHandle,
    pub view_desc: ImageViewDesc,
    pub image_layout: ImageLayout,
}

pub struct RenderPassBufferBinding {
    pub handle: GraphRawResourceHandle,
}

pub enum RenderPassBinding {
    Image(RenderPassImageBinding),
    Buffer(RenderPassBufferBinding),
}

impl Ref<Image, GpuSrv> {
    /// A sampled binding: the image is seen in the shader-read-only layout.
    pub fn bind(&self, view_desc: ImageViewDesc) -> (r: RenderPassBinding)
        ensures
            r == RenderPassBinding::Image(RenderPassImageBinding {
                handle: self.handle,
                view_desc,
                image_layout: ImageLayout::ShaderReadOnlyOptimal,
            }),
    {
        RenderPassBinding::Image(
            RenderPassImageBinding {
                handle: self.handle,
                view_desc,
                image_layout: ImageLayout::ShaderReadOnlyOptimal,
            },
        )
    }
}

impl Ref<Image, GpuUav> {
    /// A storage binding: the image is seen in the general layout.
    pub fn bind(&self, view_desc: ImageViewDesc) -> (r: RenderPassBinding)
        ensures
            r == RenderPassBinding::Image(RenderPassImageBinding {
                handle: self.handle,
                view_desc,
                image_layout: ImageLayout::General,
            }),
    {
        RenderPassBinding::Image(
            RenderPassImageBinding { handle: self.handle, view_desc, image_layout: ImageLayout::General },
        )
    }
}

impl Ref<Buffer, GpuSrv> {
    pub fn bind(&self) -> (r: RenderPassBinding)
        ensures
            r == RenderPassBinding::Buffer(RenderPassBufferBinding { handle: self.handle }),
    {
        RenderPassBinding::Buffer(RenderPassBufferBinding { handle: self.handle })
    }
}

impl Ref<Buffer, GpuUav> {
    pub fn bind(&self) -> (r: RenderPassBinding)
        ensures
            r == RenderPassBinding::Buffer(RenderPassBufferBinding { handle: self.handle }),
    {
        RenderPassBinding::Buffer(RenderPassBufferBinding { handle: self.handle })
    }
}

} // verus!
