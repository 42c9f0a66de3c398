//! The device-facing half of the library: the rendering context and the
//! resource handles it mints.
//!
//! The context owns an explicit table of live native ids.  Ids are handed
//! out by a strictly increasing counter starting at 1 (0 is the reserved
//! always-invalid sentinel), so no two live handles ever share an id, and
//! releasing an id removes it from the table exactly once.

pub mod array;
pub mod attrib;
pub mod buffer;
pub mod shader;
pub mod texture;
pub mod uniform;

use vstd::prelude::*;

verus! {

/// Common access to the native id of a resource handle.
pub trait GLHandle {
    /// The native id as the specification sees it.
    spec fn handle_spec(&self) -> u32;

    /// Returns the raw native id of this resource.
    fn gl_handle(&self) -> (h: u32)
        ensures
            h == self.handle_spec(),
    ;
}

/// A native id wrapped in a struct so that it cannot accidentally be used
/// as a live handle.  An id carried inside an error value has already been
/// released by the time the error is returned.
#[derive(PartialEq, Eq, Structural, Hash, Clone, Copy, Debug)]
pub struct RawGLHandle(pub(crate) u32);

impl RawGLHandle {
    /// The wrapped native id.
    pub closed spec fn id_spec(&self) -> u32 {
        self.0
    }
}

impl GLHandle for RawGLHandle {
    open spec fn handle_spec(&self) -> u32 {
        self.id_spec()
    }

    fn gl_handle(&self) -> (h: u32) {
        self.0
    }
}

/// Proof that a device context is live, and the allocator of native ids.
///
/// Ids are minted by `allocate_handle`, strictly increasing from 1, and a
/// minted id stays in the live table until `release_handle` removes it.
/// The tag distinguishes this context from others; the caller of `new`
/// asserts that the tag is not shared with another live context, which
/// mirrors the obligation of making a native context current.
pub struct RenderingContext {
    tag: u64,
    next: u32,
    live: Vec<u32>,
}

impl RenderingContext {
    /// The tag that handles of this context carry.
    pub closed spec fn context_tag(&self) -> u64 {
        self.tag
    }

    /// The id the next allocation will return.
    pub closed spec fn next_handle(&self) -> u32 {
        self.next
    }

    /// The ids currently alive, in allocation order.
    pub closed spec fn live_ids(&self) -> Seq<u32> {
        self.live@
    }

    /// Whether `id` is currently alive in this context.
    pub open spec fn is_live(&self, id: u32) -> bool {
        self.live_ids().contains(id)
    }

    /// Every live id is nonzero, below the allocation counter, and listed
    /// exactly once.
    pub open spec fn wf(&self) -> bool {
        &&& 1 <= self.next_handle()
        &&& forall|i: int|
            0 <= i < self.live_ids().len() ==> 0 < #[trigger] self.live_ids()[i]
                < self.next_handle()
        &&& forall|i: int, j: int|
            0 <= i < j < self.live_ids().len() ==> self.live_ids()[i] != self.live_ids()[j]
    }

    /// Creates the context value for a freshly current device context.
    ///
    /// The caller asserts that `tag` is not the tag of any other live
    /// context; resources will be checked against it.
    pub fn new(tag: u64) -> (ctx: Self)
        ensures
            ctx.wf(),
            ctx.context_tag() == tag,
            ctx.next_handle() == 1,
            ctx.live_ids() == Seq::<u32>::empty(),
    {
        Self { tag, next: 1, live: Vec::new() }
    }

    /// The tag this context was created with.
    pub fn current_tag(&self) -> (t: u64)
        ensures
            t == self.context_tag(),
    {
        self.tag
    }

    /// Number of ids currently alive.
    pub fn live_handles(&self) -> (n: usize)
        ensures
            n == self.live_ids().len(),
    {
        self.live.len()
    }

    /// Whether `id` is currently alive.
    pub fn is_handle_live(&self, id: u32) -> (r: bool)
        ensures
            r == self.is_live(id),
    {
        let mut i: usize = 0;
        while i < self.live.len()
            invariant
                i <= self.live.len(),
                forall|j: int| 0 <= j < i ==> self.live@[j] != id,
            decreases self.live.len() - i,
        {
            if self.live[i] == id {
                assert(self.live_ids()[i as int] == id);
                return true;
            }
            i = i + 1;
        }
        assert(!self.live_ids().contains(id)) by {
            if self.live_ids().contains(id) {
                let j = self.live_ids().index_of(id);
                assert(self.live_ids()[j] == id);
            }
        }
        false
    }

    /// Mints a fresh native id and marks it live.
    pub(crate) fn allocate_handle(&mut self) -> (id: u32)
        requires
            old(self).wf(),
            old(self).next_handle() < u32::MAX,
        ensures
            final(self).wf(),
            id == old(self).next_handle(),
            id != 0,
            !old(self).is_live(id),
            final(self).context_tag() == old(self).context_tag(),
            final(self).next_handle() == old(self).next_handle() + 1,
            final(self).live_ids() == old(self).live_ids().push(id),
            final(self).is_live(id),
    {
        let id = self.next;
        self.next = self.next + 1;
        self.live.push(id);
        proof {
            if old(self).is_live(id) {
                let j = old(self).live_ids().index_of(id);
                assert(old(self).live_ids()[j] == id);
            }
            assert(final(self).live_ids().last() == id);
        }
        id
    }

    /// Releases a live id: it leaves the table, everything else stays.
    pub(crate) fn release_handle(&mut self, id: u32)
        requires
            old(self).wf(),
            old(self).is_live(id),
        ensures
            final(self).wf(),
            final(self).context_tag() == old(self).context_tag(),
            final(self).next_handle() == old(self).next_handle(),
            final(self).live_ids().len() == old(self).live_ids().len() - 1,
            !final(self).is_live(id),
            forall|other: u32|
                other != id ==> final(self).is_live(other) == old(self).is_live(other),
    {
        let ghost pre = self.live@;
        let mut i: usize = 0;
        while self.live[i] != id
            invariant
                self.live@ == pre,
                i < self.live@.len(),
                forall|j: int| 0 <= j < i ==> self.live@[j] != id,
                exists|j: int| 0 <= j < self.live@.len() && self.live@[j] == id,
            decreases self.live.len() - i,
        {
            i = i + 1;
            proof {
                let j = choose|j: int| 0 <= j < self.live@.len() && self.live@[j] == id;
                assert(i <= j < self.live@.len());
            }
        }
        self.live.remove(i);
        proof {
            let n = pre.len();
            assert(final(self).live_ids() =~= pre.subrange(0, i as int) + pre.subrange(
                i + 1,
                n as int,
            ));
            assert forall|other: u32| other != id implies final(self).is_live(other)
                == old(self).is_live(other) by {
                lemma_contains_after_remove(pre, i as int, other);
            }
            assert(!final(self).is_live(id)) by {
                if final(self).live_ids().contains(id) {
                    let j = final(self).live_ids().index_of(id);
                    if j < i {
                        assert(pre[j] == id);
                    } else {
                        assert(pre[j + 1] == id);
                        assert(0 <= i < j + 1 < pre.len());
                    }
                }
            }
        }
    }
}

impl RenderingContext {
    /// Creates an empty buffer; see [`buffer::Buffer::new`].
    pub fn create_buffer(&mut self) -> (buf: buffer::Buffer)
        requires
            old(self).wf(),
            old(self).next_handle() < u32::MAX,
        ensures
            final(self).wf(),
            final(self).context_tag() == old(self).context_tag(),
            final(self).next_handle() == old(self).next_handle() + 1,
            final(self).live_ids() == old(self).live_ids().push(buf.handle_id()),
            buf.handle_id() == old(self).next_handle(),
            buf.handle_id() != 0,
            buf.context_tag() == old(self).context_tag(),
            buf.usage_hint() is None,
            buf@ == Seq::<u8>::empty(),
    {
        buffer::Buffer::new(self)
    }

    /// Creates `n` empty buffers; see [`buffer::Buffer::new_multi`].
    pub fn create_buffers(&mut self, n: usize) -> (bufs: Vec<buffer::Buffer>)
        requires
            old(self).wf(),
            old(self).next_handle() + n <= u32::MAX,
        ensures
            final(self).wf(),
            final(self).context_tag() == old(self).context_tag(),
            final(self).next_handle() == old(self).next_handle() + n,
            bufs.len() == n,
            forall|i: int|
                0 <= i < n ==> (#[trigger] bufs[i]).handle_id() == old(self).next_handle() + i,
            forall|i: int|
                0 <= i < n ==> (#[trigger] bufs[i]).context_tag() == old(self).context_tag(),
            forall|i: int| 0 <= i < n ==> (#[trigger] bufs[i])@ == Seq::<u8>::empty(),
            forall|i: int| 0 <= i < n ==> final(self).is_live((#[trigger] bufs[i]).handle_id()),
    {
        buffer::Buffer::new_multi(self, n)
    }

    /// Creates a buffer holding `data`; see [`buffer::Buffer::with_data`].
    pub fn create_buffer_with_data(&mut self, usage: buffer::BufferUsage, data: &[u8]) -> (buf:
        buffer::Buffer)
        requires
            old(self).wf(),
            old(self).next_handle() < u32::MAX,
        ensures
            final(self).wf(),
            final(self).context_tag() == old(self).context_tag(),
            final(self).next_handle() == old(self).next_handle() + 1,
            final(self).live_ids() == old(self).live_ids().push(buf.handle_id()),
            buf.handle_id() == old(self).next_handle(),
            buf.context_tag() == old(self).context_tag(),
            buf.usage_hint() == Some(usage),
            buf@ == data@,
    {
        buffer::Buffer::with_data(self, usage, data)
    }

    /// Creates a vertex array from a descriptor; see
    /// [`array::VertexArray::new`].
    pub fn create_vertex_array(&mut self, desc: &array::VertexArrayDesc) -> (va:
        array::VertexArray)
        requires
            old(self).wf(),
            old(self).next_handle() < u32::MAX,
            desc.bind_points_spec().len() <= desc.buffers_spec().len(),
        ensures
            final(self).wf(),
            final(self).context_tag() == old(self).context_tag(),
            final(self).next_handle() == old(self).next_handle() + 1,
            final(self).live_ids() == old(self).live_ids().push(va.handle_id()),
            va.handle_id() == old(self).next_handle(),
            va.context_tag() == old(self).context_tag(),
    {
        array::VertexArray::new(self, desc)
    }

    /// Creates a texture; see [`texture::Texture::new`].
    pub fn create_texture(
        &mut self,
        size: (u32, u32),
        internal_format: texture::InternalFormat,
    ) -> (t: texture::Texture)
        requires
            old(self).wf(),
            old(self).next_handle() < u32::MAX,
            size.0 <= i32::MAX,
            size.1 <= i32::MAX,
        ensures
            final(self).wf(),
            final(self).context_tag() == old(self).context_tag(),
            final(self).next_handle() == old(self).next_handle() + 1,
            final(self).live_ids() == old(self).live_ids().push(t.handle_id()),
            t.handle_id() == old(self).next_handle(),
            t.context_tag() == old(self).context_tag(),
            t.extent() == size,
            t.wrap_modes() == (texture::TextureWrap::ClampToEdge, texture::TextureWrap::ClampToEdge),
            t.filter_mode() is Nearest,
            t.uploads_spec() == Seq::<((u32, u32), (u32, u32))>::empty(),
    {
        texture::Texture::new(self, size, internal_format)
    }

    /// Creates a shader stage from the compiler's verdict; see
    /// [`shader::ShaderStage::new`].
    pub fn create_shader_stage(
        &mut self,
        kind: shader::ShaderStageKind,
        outcome: shader::DriverStatus,
    ) -> (r: Result<shader::ShaderStage, shader::ShaderStageError>)
        requires
            old(self).wf(),
            old(self).next_handle() < u32::MAX,
        ensures
            final(self).wf(),
            final(self).context_tag() == old(self).context_tag(),
            final(self).next_handle() == old(self).next_handle() + 1,
            outcome.success ==> (r matches Ok(s) && s.handle_id() == old(self).next_handle()
                && s.stage_kind() == kind && s.context_tag() == old(self).context_tag() && final(self).live_ids() == old(self).live_ids().push(s.handle_id())),
            !outcome.success ==> (r matches Err(shader::ShaderStageError::Compile(h, k, log))
                && h.id_spec() == old(self).next_handle() && k == kind && log@
                == shader::failure_text_spec(outcome.log)),
            !outcome.success ==> forall|x: u32| final(self).is_live(x) == old(self).is_live(x),
    {
        shader::ShaderStage::new(self, kind, outcome)
    }

    /// Creates a vertex stage; see [`shader::ShaderStage::new_vertex`].
    pub fn create_shader_stage_vertex(&mut self, outcome: shader::DriverStatus) -> (r: Result<
        shader::ShaderStage,
        shader::ShaderStageError,
    >)
        requires
            old(self).wf(),
            old(self).next_handle() < u32::MAX,
        ensures
            final(self).wf(),
            final(self).context_tag() == old(self).context_tag(),
            final(self).next_handle() == old(self).next_handle() + 1,
            outcome.success ==> (r matches Ok(s) && s.handle_id() == old(self).next_handle()
                && s.stage_kind() is Vertex && s.context_tag() == old(self).context_tag() && final(self).live_ids() == old(self).live_ids().push(s.handle_id())),
            !outcome.success ==> (r matches Err(shader::ShaderStageError::Compile(h, k, log))
                && h.id_spec() == old(self).next_handle() && k is Vertex && log@
                == shader::failure_text_spec(outcome.log)),
            !outcome.success ==> forall|x: u32| final(self).is_live(x) == old(self).is_live(x),
    {
        shader::ShaderStage::new(self, shader::ShaderStageKind::Vertex, outcome)
    }

    /// Creates a fragment stage; see [`shader::ShaderStage::new_fragment`].
    pub fn create_shader_stage_fragment(&mut self, outcome: shader::DriverStatus) -> (r: Result<
        shader::ShaderStage,
        shader::ShaderStageError,
    >)
        requires
            old(self).wf(),
            old(self).next_handle() < u32::MAX,
        ensures
            final(self).wf(),
            final(self).context_tag() == old(self).context_tag(),
            final(self).next_handle() == old(self).next_handle() + 1,
            outcome.success ==> (r matches Ok(s) && s.handle_id() == old(self).next_handle()
                && s.stage_kind() is Fragment && s.context_tag() == old(self).context_tag()
                && final(self).live_ids() == old(self).live_ids().push(s.handle_id())),
            !outcome.success ==> (r matches Err(shader::ShaderStageError::Compile(h, k, log))
                && h.id_spec() == old(self).next_handle() && k is Fragment && log@
                == shader::failure_text_spec(outcome.log)),
            !outcome.success ==> forall|x: u32| final(self).is_live(x) == old(self).is_live(x),
    {
        shader::ShaderStage::new(self, shader::ShaderStageKind::Fragment, outcome)
    }

    /// Creates a geometry stage; see [`shader::ShaderStage::new_geometry`].
    pub fn create_shader_stage_geometry(&mut self, outcome: shader::DriverStatus) -> (r: Result<
        shader::ShaderStage,
        shader::ShaderStageError,
    >)
        requires
            old(self).wf(),
            old(self).next_handle() < u32::MAX,
        ensures
            final(self).wf(),
            final(self).context_tag() == old(self).context_tag(),
            final(self).next_handle() == old(self).next_handle() + 1,
            outcome.success ==> (r matches Ok(s) && s.handle_id() == old(self).next_handle()
                && s.stage_kind() is Geometry && s.context_tag() == old(self).context_tag()
                && final(self).live_ids() == old(self).live_ids().push(s.handle_id())),
            !outcome.success ==> (r matches Err(shader::ShaderStageError::Compile(h, k, log))
                && h.id_spec() == old(self).next_handle() && k is Geometry && log@
                == shader::failure_text_spec(outcome.log)),
            !outcome.success ==> forall|x: u32| final(self).is_live(x) == old(self).is_live(x),
    {
        shader::ShaderStage::new(self, shader::ShaderStageKind::Geometry, outcome)
    }

    /// Creates a compute stage; see [`shader::ShaderStage::new_compute`].
    pub fn create_shader_stage_compute(&mut self, outcome: shader::DriverStatus) -> (r: Result<
        shader::ShaderStage,
        shader::ShaderStageError,
    >)
        requires
            old(self).wf(),
            old(self).next_handle() < u32::MAX,
        ensures
            final(self).wf(),
            final(self).context_tag() == old(self).context_tag(),
            final(self).next_handle() == old(self).next_handle() + 1,
            outcome.success ==> (r matches Ok(s) && s.handle_id() == old(self).next_handle()
                && s.stage_kind() is Compute && s.context_tag() == old(self).context_tag()
                && final(self).live_ids() == old(self).live_ids().push(s.handle_id())),
            !outcome.success ==> (r matches Err(shader::ShaderStageError::Compile(h, k, log))
                && h.id_spec() == old(self).next_handle() && k is Compute && log@
                == shader::failure_text_spec(outcome.log)),
            !outcome.success ==> forall|x: u32| final(self).is_live(x) == old(self).is_live(x),
    {
        shader::ShaderStage::new(self, shader::ShaderStageKind::Compute, outcome)
    }

    /// Links a program from compiled stages and the driver's report; see
    /// [`shader::Shader::new`].
    pub fn create_shader(
        &mut self,
        stages: &Vec<shader::ShaderStage>,
        report: shader::LinkReport,
    ) -> (r: Result<shader::Shader, shader::ShaderError>)
        requires
            old(self).wf(),
            old(self).next_handle() < u32::MAX,
            forall|i: int|
                0 <= i < stages.len() ==> (#[trigger] stages[i]).context_tag() == old(self).context_tag(),
            forall|i: int|
                0 <= i < stages.len() ==> old(self).is_live((#[trigger] stages[i]).handle_id()),
            report.active_uniforms@.len() <= u32::MAX,
        ensures
            final(self).wf(),
            final(self).context_tag() == old(self).context_tag(),
            final(self).next_handle() == old(self).next_handle() + 1,
            (report.link.success && report.validation.success) ==> (r matches Ok(sh) && sh.wf()
                && sh.handle_id() == old(self).next_handle() && sh.context_tag() == old(self).context_tag() && sh.active_uniforms() == report.active_uniforms.deep_view() && final(self).live_ids() == old(self).live_ids().push(sh.handle_id())),
            !report.link.success ==> (r matches Err(shader::ShaderError::Link(h, log))
                && h.id_spec() == old(self).next_handle() && log@ == shader::failure_text_spec(
                report.link.log,
            )),
            (report.link.success && !report.validation.success) ==> (r matches Err(
                shader::ShaderError::Validation(h, log),
            ) && h.id_spec() == old(self).next_handle() && log@ == shader::failure_text_spec(
                report.validation.log,
            )),
            !(report.link.success && report.validation.success) ==> forall|x: u32|
                final(self).is_live(x) == old(self).is_live(x),
    {
        shader::Shader::new(self, stages, report)
    }
}

/// Appending an element leaves membership of every other value unchanged.
pub(crate) proof fn lemma_contains_push(s: Seq<u32>, v: u32, x: u32)
    requires
        x != v,
    ensures
        s.push(v).contains(x) == s.contains(x),
{
    let p = s.push(v);
    if s.contains(x) {
        let j = s.index_of(x);
        assert(p[j] == x);
    }
    if p.contains(x) {
        let j = p.index_of(x);
        assert(0 <= j < s.len());
        assert(s[j] == x);
    }
}

/// Removing one index of a duplicate-free sequence keeps exactly the other
/// elements.
proof fn lemma_contains_after_remove(s: Seq<u32>, i: int, x: u32)
    requires
        0 <= i < s.len(),
        x != s[i],
    ensures
        s.remove(i).contains(x) == s.contains(x),
{
    let r = s.remove(i);
    if s.contains(x) {
        let j = s.index_of(x);
        if j < i {
            assert(r[j] == x);
        } else {
            assert(r[j - 1] == x);
        }
    }
    if r.contains(x) {
        let j = r.index_of(x);
        if j < i {
            assert(s[j] == x);
        } else {
            assert(s[j + 1] == x);
        }
    }
}

} // verus!
