//! Vertex arrays and their descriptors.
//!
//! A descriptor accumulates, in appended order, participating buffers,
//! buffer bind points, attribute-to-binding wiring and attribute formats.
//! Applying it yields the setup steps in the one order that is defined on
//! the device: first every buffer is bound to its bind point, then every
//! attribute is wired to its binding, and only then is each attribute
//! enabled and given its format.

use vstd::prelude::*;

use super::attrib::{Attrib, AttribBindPoint, AttribBinding};
use super::buffer::Buffer;
use super::{GLHandle, RenderingContext};

verus! {

/// One device call of a vertex-array setup, in the order produced by
/// [`VertexArrayDesc::apply`].
#[derive(PartialEq, Eq, Structural, Clone, Copy, Debug)]
pub enum SetupStep {
    /// Bind a buffer to a bind point of the vertex array.
    BindBuffer {
        /// Index of the buffer binding point.
        binding_index: u32,
        /// Native id of the buffer bound there.
        buffer: u32,
        /// Offset in bytes of the first element.
        offset: u32,
        /// Distance in bytes between elements.
        stride: u32,
    },
    /// Wire an attribute index to a buffer-binding index.
    LinkAttrib {
        /// Attribute index.
        attrib_index: u32,
        /// Index of the buffer binding the attribute reads from.
        binding_index: u32,
    },
    /// Enable an attribute index.
    EnableAttrib {
        /// Attribute index.
        index: u32,
    },
    /// Configure an attribute's format.
    FormatAttrib {
        /// Attribute index.
        index: u32,
        /// The attribute's format.
        format: Attrib,
    },
}

/// The enable-then-format step pair of every attribute, in order.
pub open spec fn attrib_steps(attribs: Seq<Attrib>) -> Seq<SetupStep>
    decreases attribs.len(),
{
    if attribs.len() == 0 {
        Seq::empty()
    } else {
        attrib_steps(attribs.drop_last()) + seq![
            SetupStep::EnableAttrib { index: attribs.last().index },
            SetupStep::FormatAttrib { index: attribs.last().index, format: attribs.last() },
        ]
    }
}

/// Accumulates what a vertex array is made of.
#[derive(Clone, Debug)]
pub struct VertexArrayDesc {
    buffers: Vec<u32>,
    bind_points: Vec<AttribBindPoint>,
    bindings: Vec<AttribBinding>,
    attribs: Vec<Attrib>,
}

impl VertexArrayDesc {
    /// The native ids of the buffers added so far, in order.
    pub closed spec fn buffers_spec(&self) -> Seq<u32> {
        self.buffers@
    }

    /// The bind points added so far, in order.
    pub closed spec fn bind_points_spec(&self) -> Seq<AttribBindPoint> {
        self.bind_points@
    }

    /// The attribute-to-binding assignments added so far, in order.
    pub closed spec fn bindings_spec(&self) -> Seq<AttribBinding> {
        self.bindings@
    }

    /// The attribute formats added so far, in order.
    pub closed spec fn attribs_spec(&self) -> Seq<Attrib> {
        self.attribs@
    }

    /// The i-th buffer-bind step: the i-th bind point paired with the
    /// i-th buffer.
    pub open spec fn bind_step(&self, i: int) -> SetupStep {
        SetupStep::BindBuffer {
            binding_index: self.bind_points_spec()[i].binding_index,
            buffer: self.buffers_spec()[i],
            offset: self.bind_points_spec()[i].offset,
            stride: self.bind_points_spec()[i].stride,
        }
    }

    /// Every setup step of this descriptor, in the order the device
    /// requires: buffer binds, then attribute wiring, then per attribute
    /// enable followed by format.
    pub open spec fn setup_plan(&self) -> Seq<SetupStep> {
        Seq::new(self.bind_points_spec().len(), |i: int| self.bind_step(i)) + self.bindings_spec()
            .map_values(
            |b: AttribBinding| SetupStep::LinkAttrib {
                attrib_index: b.attrib_index,
                binding_index: b.buffer_binding_index,
            },
        ) + attrib_steps(self.attribs_spec())
    }

    /// An empty descriptor.
    pub fn new() -> (d: Self)
        ensures
            d.buffers_spec() == Seq::<u32>::empty(),
            d.bind_points_spec() == Seq::<AttribBindPoint>::empty(),
            d.bindings_spec() == Seq::<AttribBinding>::empty(),
            d.attribs_spec() == Seq::<Attrib>::empty(),
    {
        VertexArrayDesc {
            buffers: Vec::new(),
            bind_points: Vec::new(),
            bindings: Vec::new(),
            attribs: Vec::new(),
        }
    }

    /// Appends a participating buffer.
    pub fn with_buffer(self, buffer: &Buffer) -> (d: Self)
        ensures
            d.buffers_spec() == self.buffers_spec().push(buffer.handle_id()),
            d.bind_points_spec() == self.bind_points_spec(),
            d.bindings_spec() == self.bindings_spec(),
            d.attribs_spec() == self.attribs_spec(),
    {
        let mut d = self;
        d.buffers.push(buffer.gl_handle());
        d
    }

    /// Appends a buffer bind point.
    pub fn with_bind_point(self, bind_point: AttribBindPoint) -> (d: Self)
        ensures
            d.buffers_spec() == self.buffers_spec(),
            d.bind_points_spec() == self.bind_points_spec().push(bind_point),
            d.bindings_spec() == self.bindings_spec(),
            d.attribs_spec() == self.attribs_spec(),
    {
        let mut d = self;
        d.bind_points.push(bind_point);
        d
    }

    /// Appends an attribute-to-binding assignment.
    pub fn with_binding(self, binding: AttribBinding) -> (d: Self)
        ensures
            d.buffers_spec() == self.buffers_spec(),
            d.bind_points_spec() == self.bind_points_spec(),
            d.bindings_spec() == self.bindings_spec().push(binding),
            d.attribs_spec() == self.attribs_spec(),
    {
        let mut d = self;
        d.bindings.push(binding);
        d
    }

    /// Appends an attribute format.
    pub fn with_attrib(self, attrib: Attrib) -> (d: Self)
        ensures
            d.buffers_spec() == self.buffers_spec(),
            d.bind_points_spec() == self.bind_points_spec(),
            d.bindings_spec() == self.bindings_spec(),
            d.attribs_spec() == self.attribs_spec().push(attrib),
    {
        let mut d = self;
        d.attribs.push(attrib);
        d
    }

    /// Produces every setup step of this descriptor in device order.
    ///
    /// Each bind point takes the buffer of its own position, so there
    /// must be a buffer for every bind point.
    pub fn apply(&self) -> (steps: Vec<SetupStep>)
        requires
            self.bind_points_spec().len() <= self.buffers_spec().len(),
        ensures
            steps@ == self.setup_plan(),
    {
        let ghost bind_part = Seq::new(
            self.bind_points_spec().len(),
            |i: int| self.bind_step(i),
        );
        let ghost link_part = self.bindings_spec().map_values(
            |b: AttribBinding| SetupStep::LinkAttrib {
                attrib_index: b.attrib_index,
                binding_index: b.buffer_binding_index,
            },
        );
        let mut steps: Vec<SetupStep> = Vec::new();
        let mut i: usize = 0;
        while i < self.bind_points.len()
            invariant
                i <= self.bind_points@.len() <= self.buffers@.len(),
                bind_part == Seq::new(self.bind_points_spec().len(), |k: int| self.bind_step(k)),
                steps@ == bind_part.take(i as int),
            decreases self.bind_points.len() - i,
        {
            let p = self.bind_points[i];
            steps.push(
                SetupStep::BindBuffer {
                    binding_index: p.binding_index,
                    buffer: self.buffers[i],
                    offset: p.offset,
                    stride: p.stride,
                },
            );
            proof {
                assert(steps@ =~= bind_part.take(i + 1));
            }
            i = i + 1;
        }
        proof {
            assert(steps@ =~= bind_part);
        }
        let mut j: usize = 0;
        while j < self.bindings.len()
            invariant
                j <= self.bindings@.len(),
                link_part == self.bindings_spec().map_values(
                    |b: AttribBinding| SetupStep::LinkAttrib {
                        attrib_index: b.attrib_index,
                        binding_index: b.buffer_binding_index,
                    },
                ),
                steps@ == bind_part + link_part.take(j as int),
            decreases self.bindings.len() - j,
        {
            let b = self.bindings[j];
            steps.push(
                SetupStep::LinkAttrib {
                    attrib_index: b.attrib_index,
                    binding_index: b.buffer_binding_index,
                },
            );
            proof {
                assert(steps@ =~= bind_part + link_part.take(j + 1));
            }
            j = j + 1;
        }
        proof {
            assert(steps@ =~= bind_part + link_part);
        }
        let mut k: usize = 0;
        while k < self.attribs.len()
            invariant
                k <= self.attribs@.len(),
                steps@ == bind_part + link_part + attrib_steps(self.attribs_spec().take(k as int)),
            decreases self.attribs.len() - k,
        {
            let a = self.attribs[k];
            steps.push(SetupStep::EnableAttrib { index: a.index });
            steps.push(SetupStep::FormatAttrib { index: a.index, format: a });
            proof {
                let t = self.attribs_spec().take(k + 1);
                assert(t.drop_last() =~= self.attribs_spec().take(k as int));
                assert(t.last() == a);
                assert(steps@ =~= bind_part + link_part + attrib_steps(t));
            }
            k = k + 1;
        }
        proof {
            assert(self.attribs_spec().take(self.attribs_spec().len() as int) =~= self
                .attribs_spec());
            assert(steps@ =~= self.setup_plan());
        }
        steps
    }
}

/// Which primitive a draw command assembles.
#[derive(PartialEq, Eq, Structural, Clone, Copy, Debug)]
pub enum DrawMode {
    /// Independent triangles, three vertices each.
    Triangles,
    /// Independent points, one vertex each.
    Points,
}

/// A draw call on the currently bound vertex array, expressed in
/// vertices.
#[derive(PartialEq, Eq, Structural, Clone, Copy, Debug)]
pub struct DrawCommand {
    /// Primitive mode.
    pub mode: DrawMode,
    /// First vertex to read.
    pub first: u32,
    /// Number of vertices to read.
    pub count: u32,
}

/// A vertex array object owned by the context whose tag it carries.
#[derive(Debug)]
pub struct VertexArray {
    handle: u32,
    tag: u64,
}

impl VertexArray {
    /// The native id of this vertex array.
    pub closed spec fn handle_id(&self) -> u32 {
        self.handle
    }

    /// The tag of the context that created this vertex array.
    pub closed spec fn context_tag(&self) -> u64 {
        self.tag
    }

    /// Creates a vertex array with a fresh id from `ctx`; the steps of
    /// `desc` (see [`VertexArrayDesc::apply`]) configure it.
    pub fn new(ctx: &mut RenderingContext, desc: &VertexArrayDesc) -> (va: Self)
        requires
            old(ctx).wf(),
            old(ctx).next_handle() < u32::MAX,
            desc.bind_points_spec().len() <= desc.buffers_spec().len(),
        ensures
            final(ctx).wf(),
            final(ctx).context_tag() == old(ctx).context_tag(),
            final(ctx).next_handle() == old(ctx).next_handle() + 1,
            final(ctx).live_ids() == old(ctx).live_ids().push(va.handle_id()),
            va.handle_id() == old(ctx).next_handle(),
            va.handle_id() != 0,
            va.context_tag() == old(ctx).context_tag(),
    {
        let id = ctx.allocate_handle();
        VertexArray { handle: id, tag: ctx.current_tag() }
    }

    /// The draw command for `tri_count` triangles starting at triangle
    /// `first`: vertex counts are three per triangle.
    pub fn draw_triangles(&self, first: u32, tri_count: u32) -> (c: DrawCommand)
        requires
            3 * first <= i32::MAX,
            3 * tri_count <= i32::MAX,
        ensures
            c.mode is Triangles,
            c.first == 3 * first,
            c.count == 3 * tri_count,
    {
        DrawCommand { mode: DrawMode::Triangles, first: first * 3, count: tri_count * 3 }
    }

    /// The draw command for `vertex_count` points starting at vertex
    /// `first`.
    pub fn draw_points(&self, first: u32, vertex_count: u32) -> (c: DrawCommand)
        requires
            first <= i32::MAX,
            vertex_count <= i32::MAX,
        ensures
            c == (DrawCommand { mode: DrawMode::Points, first, count: vertex_count }),
    {
        DrawCommand { mode: DrawMode::Points, first, count: vertex_count }
    }

    /// Releases the vertex array's native id exactly once.
    pub fn destroy(self, ctx: &mut RenderingContext)
        requires
            old(ctx).wf(),
            self.context_tag() == old(ctx).context_tag(),
            old(ctx).is_live(self.handle_id()),
        ensures
            final(ctx).wf(),
            final(ctx).context_tag() == old(ctx).context_tag(),
            final(ctx).next_handle() == old(ctx).next_handle(),
            final(ctx).live_ids().len() == old(ctx).live_ids().len() - 1,
            !final(ctx).is_live(self.handle_id()),
            forall|other: u32|
                other != self.handle_id() ==> final(ctx).is_live(other) == old(ctx).is_live(
                    other,
                ),
    {
        ctx.release_handle(self.handle);
    }
}

impl GLHandle for VertexArray {
    open spec fn handle_spec(&self) -> u32 {
        self.handle_id()
    }

    fn gl_handle(&self) -> (h: u32) {
        self.handle
    }
}

} // verus!
