//! Two-dimensional textures with storage fixed at creation.
//!
//! A sub-region upload must stay inside the created extent and inside the
//! signed 32-bit range the device works in; a violation is a contract
//! violation of the caller, never a silently clipped upload.

use vstd::prelude::*;

use super::{GLHandle, RenderingContext};

verus! {

/// Component layout of pixel data handed to an upload.
#[derive(PartialEq, Eq, Structural, Clone, Copy, Debug)]
pub enum PixelFormat {
    /// One component per pixel.
    R,
    /// Two components per pixel.
    Rg,
    /// Three components per pixel.
    Rgb,
    /// Four components per pixel.
    Rgba,
}

/// Storage format of a texture, fixed at creation.
#[derive(PartialEq, Eq, Structural, Clone, Copy, Debug)]
pub enum InternalFormat {
    /// One 8-bit component per texel.
    R8,
    /// Two 8-bit components per texel.
    Rg8,
    /// Three 8-bit components per texel.
    Rgb8,
    /// Four 8-bit components per texel.
    Rgba8,
}

/// How lookups outside the texture's edges behave.
#[derive(PartialEq, Eq, Structural, Clone, Copy, Debug)]
pub enum TextureWrap {
    /// Repeat the texture.
    Repeat,
    /// Clamp to the edge texel.
    ClampToEdge,
    /// Repeat mirrored.
    MirroredRepeat,
}

impl Default for TextureWrap {
    /// Textures start out clamped to their edges.
    fn default() -> (w: Self)
        ensures
            w is ClampToEdge,
    {
        TextureWrap::ClampToEdge
    }
}

/// How lookups between texels behave.
#[derive(PartialEq, Eq, Structural, Clone, Copy, Debug)]
pub enum TextureFilter {
    /// Nearest texel.
    Nearest,
    /// Linear interpolation.
    Linear,
}

impl Default for TextureFilter {
    /// Textures start out with nearest filtering.
    fn default() -> (f: Self)
        ensures
            f is Nearest,
    {
        TextureFilter::Nearest
    }
}

/// A 2D texture with fixed storage, owned by the context whose tag it
/// carries.
#[derive(Debug)]
pub struct Texture {
    handle: u32,
    tag: u64,
    size: (u32, u32),
    wrap_u: TextureWrap,
    wrap_v: TextureWrap,
    filter: TextureFilter,
    uploads: Vec<((u32, u32), (u32, u32))>,
}

impl Texture {
    /// The native id of this texture.
    pub closed spec fn handle_id(&self) -> u32 {
        self.handle
    }

    /// The tag of the context that created this texture.
    pub closed spec fn context_tag(&self) -> u64 {
        self.tag
    }

    /// The pixel extent fixed at creation.
    pub closed spec fn extent(&self) -> (u32, u32) {
        self.size
    }

    /// The wrap modes along u and v.
    pub closed spec fn wrap_modes(&self) -> (TextureWrap, TextureWrap) {
        (self.wrap_u, self.wrap_v)
    }

    /// The filter for both minification and magnification.
    pub closed spec fn filter_mode(&self) -> TextureFilter {
        self.filter
    }

    /// The accepted sub-image uploads so far, as (origin, extent) pairs
    /// in upload order.
    pub closed spec fn uploads_spec(&self) -> Seq<((u32, u32), (u32, u32))> {
        self.uploads@
    }

    /// Whether a sub-image at `origin` of size `extent` lies inside this
    /// texture and inside the device's signed 32-bit coordinate range.
    pub open spec fn sub_image_in_bounds(&self, origin: (u32, u32), extent: (u32, u32)) -> bool {
        &&& origin.0 < i32::MAX
        &&& origin.1 < i32::MAX
        &&& extent.0 < i32::MAX
        &&& extent.1 < i32::MAX
        &&& origin.0 + extent.0 <= self.extent().0
        &&& origin.1 + extent.1 <= self.extent().1
    }

    /// Creates a texture of the given size with one mip level, default
    /// wrap and default filter, with a fresh id from `ctx`.
    pub fn new(ctx: &mut RenderingContext, size: (u32, u32), internal_format: InternalFormat) -> (t:
        Self)
        requires
            old(ctx).wf(),
            old(ctx).next_handle() < u32::MAX,
            size.0 <= i32::MAX,
            size.1 <= i32::MAX,
        ensures
            final(ctx).wf(),
            final(ctx).context_tag() == old(ctx).context_tag(),
            final(ctx).next_handle() == old(ctx).next_handle() + 1,
            final(ctx).live_ids() == old(ctx).live_ids().push(t.handle_id()),
            t.handle_id() == old(ctx).next_handle(),
            t.handle_id() != 0,
            t.context_tag() == old(ctx).context_tag(),
            t.extent() == size,
            t.wrap_modes() == (TextureWrap::ClampToEdge, TextureWrap::ClampToEdge),
            t.filter_mode() is Nearest,
            t.uploads_spec() == Seq::<((u32, u32), (u32, u32))>::empty(),
    {
        let id = ctx.allocate_handle();
        let mut t = Texture {
            handle: id,
            tag: ctx.current_tag(),
            size,
            wrap_u: TextureWrap::Repeat,
            wrap_v: TextureWrap::Repeat,
            filter: TextureFilter::Linear,
            uploads: Vec::new(),
        };
        t.set_wrap(TextureWrap::default());
        t.set_filter(TextureFilter::default());
        t
    }

    /// Checks whether a sub-image upload at `origin` of size `extent`
    /// would be accepted.
    pub fn fits_sub_image(&self, origin: (u32, u32), extent: (u32, u32)) -> (r: bool)
        ensures
            r == self.sub_image_in_bounds(origin, extent),
    {
        let max = i32::MAX as u32;
        origin.0 < max && origin.1 < max && extent.0 < max && extent.1 < max && origin.0
            <= self.size.0 && extent.0 <= self.size.0 - origin.0 && origin.1 <= self.size.1
            && extent.1 <= self.size.1 - origin.1
    }

    /// Uploads pixel data for the whole texture.
    pub fn upload_image_data(&mut self, extent: (u32, u32), format: PixelFormat, pixels: &[u8])
        requires
            old(self).sub_image_in_bounds((0, 0), extent),
            extent.0 * extent.1 <= pixels@.len(),
        ensures
            final(self).uploads_spec() == old(self).uploads_spec().push(((0u32, 0u32), extent)),
            final(self).handle_id() == old(self).handle_id(),
            final(self).context_tag() == old(self).context_tag(),
            final(self).extent() == old(self).extent(),
            final(self).wrap_modes() == old(self).wrap_modes(),
            final(self).filter_mode() == old(self).filter_mode(),
    {
        self.upload_sub_image_data((0, 0), extent, format, pixels);
    }

    /// Uploads pixel data for the sub-region at `origin` of size
    /// `extent`, and records the accepted region.
    ///
    /// The region must lie inside the created extent; an out-of-range
    /// upload is a contract violation of the caller, never clipped or
    /// wrapped.
    pub fn upload_sub_image_data(
        &mut self,
        origin: (u32, u32),
        extent: (u32, u32),
        format: PixelFormat,
        pixels: &[u8],
    )
        requires
            old(self).sub_image_in_bounds(origin, extent),
            extent.0 * extent.1 <= pixels@.len(),
        ensures
            final(self).uploads_spec() == old(self).uploads_spec().push((origin, extent)),
            final(self).handle_id() == old(self).handle_id(),
            final(self).context_tag() == old(self).context_tag(),
            final(self).extent() == old(self).extent(),
            final(self).wrap_modes() == old(self).wrap_modes(),
            final(self).filter_mode() == old(self).filter_mode(),
    {
        self.uploads.push((origin, extent));
    }

    /// The number of accepted sub-image uploads so far.
    pub fn upload_count(&self) -> (n: usize)
        ensures
            n == self.uploads_spec().len(),
    {
        self.uploads.len()
    }

    /// Sets the wrap mode along both axes.
    pub fn set_wrap(&mut self, wrap: TextureWrap)
        ensures
            final(self).wrap_modes() == (wrap, wrap),
            final(self).handle_id() == old(self).handle_id(),
            final(self).context_tag() == old(self).context_tag(),
            final(self).extent() == old(self).extent(),
            final(self).filter_mode() == old(self).filter_mode(),
            final(self).uploads_spec() == old(self).uploads_spec(),
    {
        self.set_wrap_u(wrap);
        self.set_wrap_v(wrap);
    }

    /// Sets the wrap mode along u.
    pub fn set_wrap_u(&mut self, wrap: TextureWrap)
        ensures
            final(self).wrap_modes() == (wrap, old(self).wrap_modes().1),
            final(self).handle_id() == old(self).handle_id(),
            final(self).context_tag() == old(self).context_tag(),
            final(self).extent() == old(self).extent(),
            final(self).filter_mode() == old(self).filter_mode(),
            final(self).uploads_spec() == old(self).uploads_spec(),
    {
        self.wrap_u = wrap;
    }

    /// Sets the wrap mode along v.
    pub fn set_wrap_v(&mut self, wrap: TextureWrap)
        ensures
            final(self).wrap_modes() == (old(self).wrap_modes().0, wrap),
            final(self).handle_id() == old(self).handle_id(),
            final(self).context_tag() == old(self).context_tag(),
            final(self).extent() == old(self).extent(),
            final(self).filter_mode() == old(self).filter_mode(),
            final(self).uploads_spec() == old(self).uploads_spec(),
    {
        self.wrap_v = wrap;
    }

    /// Sets the filter for both minification and magnification.
    pub fn set_filter(&mut self, filter: TextureFilter)
        ensures
            final(self).filter_mode() == filter,
            final(self).handle_id() == old(self).handle_id(),
            final(self).context_tag() == old(self).context_tag(),
            final(self).extent() == old(self).extent(),
            final(self).wrap_modes() == old(self).wrap_modes(),
            final(self).uploads_spec() == old(self).uploads_spec(),
    {
        self.filter = filter;
    }

    /// The pixel size fixed at creation.
    pub fn size(&self) -> (s: (u32, u32))
        ensures
            s == self.extent(),
    {
        self.size
    }

    /// Releases the texture's native id exactly once.
    pub fn destroy(self, ctx: &mut RenderingContext)
        requires
            old(ctx).wf(),
            self.context_tag() == old(ctx).context_tag(),
            old(ctx).is_live(self.handle_id()),
        ensures
            final(ctx).wf(),
            final(ctx).context_tag() == old(ctx).context_tag(),
            final(ctx).next_handle() == old(ctx).next_handle(),
            final(ctx).live_ids().len() == old(ctx).live_ids().len() - 1,
            !final(ctx).is_live(self.handle_id()),
            forall|other: u32|
                other != self.handle_id() ==> final(ctx).is_live(other) == old(ctx).is_live(
                    other,
                ),
    {
        ctx.release_handle(self.handle);
    }
}

impl GLHandle for Texture {
    open spec fn handle_spec(&self) -> u32 {
        self.handle_id()
    }

    fn gl_handle(&self) -> (h: u32) {
        self.handle
    }
}

} // verus!
