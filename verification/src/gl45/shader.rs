//! Shader stages and linked shader programs.
//!
//! The device's compiler, linker and validator are external
//! collaborators; each of their reports arrives as a [`DriverStatus`].
//! Everything around such a report is decided and checked here: the
//! stage handle exists before compilation is attempted, so the release
//! path runs — exactly once — even when compilation fails, and every
//! failure is a structured error carrying the raw id and the full
//! diagnostic text.

use vstd::prelude::*;

use super::uniform::{UniformLocation, UniformValue};
use super::{GLHandle, RawGLHandle, RenderingContext};

verus! {

/// One verdict of the device driver: did an operation succeed, and what
/// diagnostic log did it leave, if any.
#[derive(Debug)]
pub struct DriverStatus {
    /// Whether the operation succeeded.
    pub success: bool,
    /// The diagnostic log, or `None` when the driver left none.
    pub log: Option<String>,
}

/// The diagnostic text an error carries: the driver's log, or a fixed
/// placeholder when the driver left none.
pub open spec fn failure_text_spec(log: Option<String>) -> Seq<char> {
    match log {
        Some(s) => s@,
        None => "[no log]"@,
    }
}

/// Turns an optional driver log into the text a failure carries.
fn failure_text(log: Option<String>) -> (r: String)
    ensures
        r@ == failure_text_spec(log),
{
    match log {
        Some(s) => s,
        None => "[no log]".to_owned(),
    }
}

/// The pipeline stage a shader object compiles for.
#[derive(PartialEq, Eq, Structural, Clone, Copy, Debug)]
pub enum ShaderStageKind {
    /// Per-vertex stage.
    Vertex,
    /// Per-fragment stage.
    Fragment,
    /// Primitive-rewriting stage.
    Geometry,
    /// Compute stage outside the draw pipeline.
    Compute,
}

impl ShaderStageKind {
    /// The lower-case name of this stage kind.
    pub open spec fn name_spec(self) -> Seq<char> {
        match self {
            ShaderStageKind::Vertex => "vertex"@,
            ShaderStageKind::Fragment => "fragment"@,
            ShaderStageKind::Geometry => "geometry"@,
            ShaderStageKind::Compute => "compute"@,
        }
    }

    /// Returns the lower-case name of this stage kind.
    pub fn name(&self) -> (r: String)
        ensures
            r@ == self.name_spec(),
    {
        match self {
            ShaderStageKind::Vertex => "vertex".to_owned(),
            ShaderStageKind::Fragment => "fragment".to_owned(),
            ShaderStageKind::Geometry => "geometry".to_owned(),
            ShaderStageKind::Compute => "compute".to_owned(),
        }
    }
}

/// Why creating a shader stage failed.
#[derive(Debug)]
pub enum ShaderStageError {
    /// Compilation failed: the already-released raw id, the stage kind,
    /// and the compiler's diagnostic text.
    Compile(RawGLHandle, ShaderStageKind, String),
}

/// A compiled shader stage owned by the context whose tag it carries.
#[derive(Debug)]
pub struct ShaderStage {
    handle: u32,
    tag: u64,
    kind: ShaderStageKind,
}

impl ShaderStage {
    /// The native id of this stage.
    pub closed spec fn handle_id(&self) -> u32 {
        self.handle
    }

    /// The tag of the context that created this stage.
    pub closed spec fn context_tag(&self) -> u64 {
        self.tag
    }

    /// The pipeline stage this object compiles for.
    pub closed spec fn stage_kind(&self) -> ShaderStageKind {
        self.kind
    }

    /// Creates a stage of the given kind and accepts the compiler's
    /// verdict on its source.
    ///
    /// The handle is allocated before the verdict is looked at, so on
    /// failure the fresh id is released — exactly once — and returned
    /// inside the error together with the stage kind and the diagnostic
    /// text.
    pub fn new(ctx: &mut RenderingContext, kind: ShaderStageKind, outcome: DriverStatus) -> (r:
        Result<Self, ShaderStageError>)
        requires
            old(ctx).wf(),
            old(ctx).next_handle() < u32::MAX,
        ensures
            final(ctx).wf(),
            final(ctx).context_tag() == old(ctx).context_tag(),
            final(ctx).next_handle() == old(ctx).next_handle() + 1,
            outcome.success ==> (r matches Ok(s) && s.handle_id() == old(ctx).next_handle()
                && s.handle_id() != 0 && s.stage_kind() == kind && s.context_tag() == old(ctx).context_tag() && final(ctx).live_ids() == old(ctx).live_ids().push(s.handle_id())),
            !outcome.success ==> (r matches Err(ShaderStageError::Compile(h, k, log))
                && h.id_spec() == old(ctx).next_handle() && k == kind && log@ == failure_text_spec(
                outcome.log,
            )),
            !outcome.success ==> final(ctx).live_ids().len() == old(ctx).live_ids().len(),
            !outcome.success ==> forall|x: u32| final(ctx).is_live(x) == old(ctx).is_live(x),
            !outcome.success ==> !final(ctx).is_live(old(ctx).next_handle()),
    {
        let id = ctx.allocate_handle();
        let stage = ShaderStage { handle: id, tag: ctx.current_tag(), kind };
        if outcome.success {
            Ok(stage)
        } else {
            let raw = RawGLHandle(stage.handle);
            ctx.release_handle(stage.handle);
            proof {
                assert forall|x: u32| final(ctx).is_live(x) == old(ctx).is_live(x) by {
                    if x != id {
                        super::lemma_contains_push(old(ctx).live_ids(), id, x);
                    }
                }
            }
            Err(ShaderStageError::Compile(raw, kind, failure_text(outcome.log)))
        }
    }

    /// A vertex stage; see [`ShaderStage::new`].
    pub fn new_vertex(ctx: &mut RenderingContext, outcome: DriverStatus) -> (r: Result<
        Self,
        ShaderStageError,
    >)
        requires
            old(ctx).wf(),
            old(ctx).next_handle() < u32::MAX,
        ensures
            final(ctx).wf(),
            final(ctx).context_tag() == old(ctx).context_tag(),
            final(ctx).next_handle() == old(ctx).next_handle() + 1,
            outcome.success ==> (r matches Ok(s) && s.handle_id() == old(ctx).next_handle()
                && s.stage_kind() is Vertex && s.context_tag() == old(ctx).context_tag() && final(ctx).live_ids() == old(ctx).live_ids().push(s.handle_id())),
            !outcome.success ==> (r matches Err(ShaderStageError::Compile(h, k, log))
                && h.id_spec() == old(ctx).next_handle() && k is Vertex && log@
                == failure_text_spec(outcome.log)),
            !outcome.success ==> forall|x: u32| final(ctx).is_live(x) == old(ctx).is_live(x),
    {
        Self::new(ctx, ShaderStageKind::Vertex, outcome)
    }

    /// A fragment stage; see [`ShaderStage::new`].
    pub fn new_fragment(ctx: &mut RenderingContext, outcome: DriverStatus) -> (r: Result<
        Self,
        ShaderStageError,
    >)
        requires
            old(ctx).wf(),
            old(ctx).next_handle() < u32::MAX,
        ensures
            final(ctx).wf(),
            final(ctx).context_tag() == old(ctx).context_tag(),
            final(ctx).next_handle() == old(ctx).next_handle() + 1,
            outcome.success ==> (r matches Ok(s) && s.handle_id() == old(ctx).next_handle()
                && s.stage_kind() is Fragment && s.context_tag() == old(ctx).context_tag() && final(ctx).live_ids() == old(ctx).live_ids().push(s.handle_id())),
            !outcome.success ==> (r matches Err(ShaderStageError::Compile(h, k, log))
                && h.id_spec() == old(ctx).next_handle() && k is Fragment && log@
                == failure_text_spec(outcome.log)),
            !outcome.success ==> forall|x: u32| final(ctx).is_live(x) == old(ctx).is_live(x),
    {
        Self::new(ctx, ShaderStageKind::Fragment, outcome)
    }

    /// A geometry stage; see [`ShaderStage::new`].
    pub fn new_geometry(ctx: &mut RenderingContext, outcome: DriverStatus) -> (r: Result<
        Self,
        ShaderStageError,
    >)
        requires
            old(ctx).wf(),
            old(ctx).next_handle() < u32::MAX,
        ensures
            final(ctx).wf(),
            final(ctx).context_tag() == old(ctx).context_tag(),
            final(ctx).next_handle() == old(ctx).next_handle() + 1,
            outcome.success ==> (r matches Ok(s) && s.handle_id() == old(ctx).next_handle()
                && s.stage_kind() is Geometry && s.context_tag() == old(ctx).context_tag() && final(ctx).live_ids() == old(ctx).live_ids().push(s.handle_id())),
            !outcome.success ==> (r matches Err(ShaderStageError::Compile(h, k, log))
                && h.id_spec() == old(ctx).next_handle() && k is Geometry && log@
                == failure_text_spec(outcome.log)),
            !outcome.success ==> forall|x: u32| final(ctx).is_live(x) == old(ctx).is_live(x),
    {
        Self::new(ctx, ShaderStageKind::Geometry, outcome)
    }

    /// A compute stage; see [`ShaderStage::new`].
    pub fn new_compute(ctx: &mut RenderingContext, outcome: DriverStatus) -> (r: Result<
        Self,
        ShaderStageError,
    >)
        requires
            old(ctx).wf(),
            old(ctx).next_handle() < u32::MAX,
        ensures
            final(ctx).wf(),
            final(ctx).context_tag() == old(ctx).context_tag(),
            final(ctx).next_handle() == old(ctx).next_handle() + 1,
            outcome.success ==> (r matches Ok(s) && s.handle_id() == old(ctx).next_handle()
                && s.stage_kind() is Compute && s.context_tag() == old(ctx).context_tag() && final(ctx).live_ids() == old(ctx).live_ids().push(s.handle_id())),
            !outcome.success ==> (r matches Err(ShaderStageError::Compile(h, k, log))
                && h.id_spec() == old(ctx).next_handle() && k is Compute && log@
                == failure_text_spec(outcome.log)),
            !outcome.success ==> forall|x: u32| final(ctx).is_live(x) == old(ctx).is_live(x),
    {
        Self::new(ctx, ShaderStageKind::Compute, outcome)
    }

    /// The pipeline stage this object compiles for.
    pub fn kind(&self) -> (k: ShaderStageKind)
        ensures
            k == self.stage_kind(),
    {
        self.kind
    }

    /// Releases the stage's native id exactly once.
    pub fn destroy(self, ctx: &mut RenderingContext)
        requires
            old(ctx).wf(),
            self.context_tag() == old(ctx).context_tag(),
            old(ctx).is_live(self.handle_id()),
        ensures
            final(ctx).wf(),
            final(ctx).context_tag() == old(ctx).context_tag(),
            final(ctx).next_handle() == old(ctx).next_handle(),
            final(ctx).live_ids().len() == old(ctx).live_ids().len() - 1,
            !final(ctx).is_live(self.handle_id()),
            forall|other: u32|
                other != self.handle_id() ==> final(ctx).is_live(other) == old(ctx).is_live(
                    other,
                ),
    {
        ctx.release_handle(self.handle);
    }
}

impl GLHandle for ShaderStage {
    open spec fn handle_spec(&self) -> u32 {
        self.handle_id()
    }

    fn gl_handle(&self) -> (h: u32) {
        self.handle
    }
}

/// Why creating a shader program failed.  Linking and validation are
/// distinct steps with distinct errors.
#[derive(Debug)]
pub enum ShaderError {
    /// Linking failed: the already-released raw id and the linker's
    /// diagnostic text.
    Link(RawGLHandle, String),
    /// The program linked but failed validation: the already-released
    /// raw id and the validator's diagnostic text.
    Validation(RawGLHandle, String),
}

/// What the driver reported about a link attempt: the link verdict, the
/// validation verdict that follows a successful link, and the uniforms
/// that are active in the linked program.
#[derive(Debug)]
pub struct LinkReport {
    /// Verdict of the link step.
    pub link: DriverStatus,
    /// Verdict of the validation step after a successful link.
    pub validation: DriverStatus,
    /// Names of the uniforms active in the linked program.
    pub active_uniforms: Vec<String>,
}

/// A linked shader program owned by the context whose tag it carries.
#[derive(Debug)]
pub struct Shader {
    handle: u32,
    tag: u64,
    uniforms: Vec<String>,
    uniform_values: Vec<Option<UniformValue>>,
}

impl Shader {
    /// The native id of this program.
    pub closed spec fn handle_id(&self) -> u32 {
        self.handle
    }

    /// The tag of the context that created this program.
    pub closed spec fn context_tag(&self) -> u64 {
        self.tag
    }

    /// The names of the uniforms active in this program, in the order
    /// locations are assigned.
    pub closed spec fn active_uniforms(&self) -> Seq<Seq<char>> {
        self.uniforms.deep_view()
    }

    /// The value recorded for each uniform location, `None` before the
    /// first set.
    pub closed spec fn uniform_values_spec(&self) -> Seq<Option<UniformValue>> {
        self.uniform_values@
    }

    /// One value slot per active uniform, and every location fits the
    /// device's 32-bit location range.
    pub open spec fn wf(&self) -> bool {
        &&& self.uniform_values_spec().len() == self.active_uniforms().len()
        &&& self.active_uniforms().len() <= u32::MAX
    }

    /// Builds a program from previously compiled stages and the driver's
    /// link report.
    ///
    /// The program handle is allocated first, and the stages are only
    /// attached for the duration of the link attempt, whatever the
    /// outcome.  Link failure and validation failure are distinct
    /// errors; in both the fresh id is released — exactly once — before
    /// the error is returned.
    pub fn new(ctx: &mut RenderingContext, stages: &Vec<ShaderStage>, report: LinkReport) -> (r:
        Result<Self, ShaderError>)
        requires
            old(ctx).wf(),
            old(ctx).next_handle() < u32::MAX,
            forall|i: int|
                0 <= i < stages.len() ==> (#[trigger] stages[i]).context_tag() == old(
                    ctx,
                ).context_tag(),
            forall|i: int|
                0 <= i < stages.len() ==> old(ctx).is_live((#[trigger] stages[i]).handle_id()),
            report.active_uniforms@.len() <= u32::MAX,
        ensures
            final(ctx).wf(),
            final(ctx).context_tag() == old(ctx).context_tag(),
            final(ctx).next_handle() == old(ctx).next_handle() + 1,
            (report.link.success && report.validation.success) ==> (r matches Ok(sh) && sh.wf()
                && sh.handle_id() == old(ctx).next_handle() && sh.handle_id() != 0
                && sh.context_tag() == old(ctx).context_tag() && sh.active_uniforms()
                == report.active_uniforms.deep_view() && sh.uniform_values_spec() == Seq::new(
                report.active_uniforms.deep_view().len(),
                |i: int| None::<UniformValue>,
            ) && final(ctx).live_ids() == old(ctx).live_ids().push(sh.handle_id())),
            !report.link.success ==> (r matches Err(ShaderError::Link(h, log)) && h.id_spec()
                == old(ctx).next_handle() && log@ == failure_text_spec(report.link.log)),
            (report.link.success && !report.validation.success) ==> (r matches Err(
                ShaderError::Validation(h, log),
            ) && h.id_spec() == old(ctx).next_handle() && log@ == failure_text_spec(
                report.validation.log,
            )),
            !(report.link.success && report.validation.success) ==> forall|x: u32|
                final(ctx).is_live(x) == old(ctx).is_live(x),
            !(report.link.success && report.validation.success) ==> final(ctx).live_ids().len()
                == old(ctx).live_ids().len(),
            !(report.link.success && report.validation.success) ==> !final(ctx).is_live(
                old(ctx).next_handle(),
            ),
    {
        let id = ctx.allocate_handle();
        let tag = ctx.current_tag();
        if report.link.success && report.validation.success {
            let n = report.active_uniforms.len();
            let mut values: Vec<Option<UniformValue>> = Vec::new();
            let mut i: usize = 0;
            while i < n
                invariant
                    i <= n,
                    values@ =~= Seq::new(i as nat, |k: int| None::<UniformValue>),
                decreases n - i,
            {
                values.push(None);
                proof {
                    assert(values@ =~= Seq::new((i + 1) as nat, |k: int| None::<UniformValue>));
                }
                i = i + 1;
            }
            let sh = Shader { handle: id, tag, uniforms: report.active_uniforms, uniform_values: values };
            Ok(sh)
        } else {
            let raw = RawGLHandle(id);
            ctx.release_handle(id);
            proof {
                assert forall|x: u32| final(ctx).is_live(x) == old(ctx).is_live(x) by {
                    if x != id {
                        super::lemma_contains_push(old(ctx).live_ids(), id, x);
                    }
                }
            }
            if !report.link.success {
                Err(ShaderError::Link(raw, failure_text(report.link.log)))
            } else {
                Err(ShaderError::Validation(raw, failure_text(report.validation.log)))
            }
        }
    }

    /// Looks a uniform name up in the linked program.
    ///
    /// An absent name is an expected outcome, not an error: the result is
    /// `None` exactly when the name is not active in this program;
    /// otherwise it is the location of the name's first occurrence.
    pub fn uniform_location(&self, name: &String) -> (r: Option<UniformLocation>)
        requires
            self.wf(),
        ensures
            (r is Some) <==> self.active_uniforms().contains(name@),
            r matches Some(loc) ==> {
                &&& loc.index_spec() < self.active_uniforms().len()
                &&& self.active_uniforms()[loc.index_spec() as int] == name@
                &&& forall|j: int|
                    0 <= j < loc.index_spec() ==> self.active_uniforms()[j] != name@
            },
    {
        let n = self.uniforms.len();
        let mut i: usize = 0;
        while i < n
            invariant
                i <= n == self.active_uniforms().len(),
                n <= u32::MAX,
                forall|j: int| 0 <= j < i ==> self.active_uniforms()[j] != name@,
            decreases n - i,
        {
            if self.uniforms[i].eq(name) {
                assert(self.active_uniforms()[i as int] == name@);
                return Some(UniformLocation::from_index(i as u32));
            }
            i = i + 1;
        }
        proof {
            if self.active_uniforms().contains(name@) {
                let j = self.active_uniforms().index_of(name@);
                assert(self.active_uniforms()[j] == name@);
            }
        }
        None
    }

    /// Records `value` for the uniform at `loc`; a location outside the
    /// program's table changes nothing.
    pub fn set_uniform_value(&mut self, loc: UniformLocation, value: UniformValue)
        ensures
            final(self).handle_id() == old(self).handle_id(),
            final(self).context_tag() == old(self).context_tag(),
            final(self).active_uniforms() == old(self).active_uniforms(),
            loc.index_spec() < old(self).uniform_values_spec().len() ==> final(self).uniform_values_spec() == old(self).uniform_values_spec().update(
                loc.index_spec() as int,
                Some(value),
            ),
            loc.index_spec() >= old(self).uniform_values_spec().len() ==> final(self).uniform_values_spec() == old(self).uniform_values_spec(),
    {
        let i = loc.index() as usize;
        if i < self.uniform_values.len() {
            self.uniform_values.set(i, Some(value));
        }
    }

    /// The value recorded for the uniform at `loc`, if any.
    pub fn uniform_value(&self, loc: UniformLocation) -> (r: Option<UniformValue>)
        ensures
            loc.index_spec() < self.uniform_values_spec().len() ==> r == self.uniform_values_spec()[
                loc.index_spec() as int
            ],
            loc.index_spec() >= self.uniform_values_spec().len() ==> r is None,
    {
        let i = loc.index() as usize;
        if i < self.uniform_values.len() {
            self.uniform_values[i]
        } else {
            None
        }
    }

    /// Releases the program's native id exactly once.
    pub fn destroy(self, ctx: &mut RenderingContext)
        requires
            old(ctx).wf(),
            self.context_tag() == old(ctx).context_tag(),
            old(ctx).is_live(self.handle_id()),
        ensures
            final(ctx).wf(),
            final(ctx).context_tag() == old(ctx).context_tag(),
            final(ctx).next_handle() == old(ctx).next_handle(),
            final(ctx).live_ids().len() == old(ctx).live_ids().len() - 1,
            !final(ctx).is_live(self.handle_id()),
            forall|other: u32|
                other != self.handle_id() ==> final(ctx).is_live(other) == old(ctx).is_live(
                    other,
                ),
    {
        ctx.release_handle(self.handle);
    }
}

impl GLHandle for Shader {
    open spec fn handle_spec(&self) -> u32 {
        self.handle_id()
    }

    fn gl_handle(&self) -> (h: u32) {
        self.handle
    }
}

} // verus!
