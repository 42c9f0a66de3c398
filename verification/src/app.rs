//! The application run loop as a state machine.
//!
//! The loop itself lives in the embedding program, which polls the window
//! system and performs the actions; this module owns every decision: how
//! options become a window request, what each event does to the state,
//! which actions one frame performs and in which order, and when the
//! loop ends.  One frame is: apply and forward every pending event —
//! a close request or, in debug mode, an escape key press moves the
//! state towards closing — then always update, draw and present, and in
//! debug mode drain pending diagnostics.

use vstd::prelude::*;

use crate::debug_output::{debug_output_supported, is_debug_output_supported};
use crate::gl45::RenderingContext;

verus! {

/// Default window width in pixels.
pub const DEFAULT_WINDOW_WIDTH: u32 = 856;

/// Default window height in pixels.
pub const DEFAULT_WINDOW_HEIGHT: u32 = 482;

/// Default device-API major version.
pub const DEFAULT_GL_MAJOR: u32 = 4;

/// Default device-API minor version.
pub const DEFAULT_GL_MINOR: u32 = 5;

/// Configuration of a run, all fields optional through [`Default`].
#[derive(Debug)]
pub struct AppOptions {
    /// Window title.
    pub title: String,
    /// Window size in pixels.
    pub window_size: (u32, u32),
    /// Target device-API version.
    pub gl_version: (u32, u32),
    /// Whether verbose driver diagnostics are requested.
    pub gl_debug_output: bool,
}

impl Default for AppOptions {
    /// The default options: the library's name as title, an 856 x 482
    /// window, device-API version 4.5, and no verbose diagnostics.
    fn default() -> (opts: Self)
        ensures
            opts.title@ == "ren"@,
            opts.window_size == (DEFAULT_WINDOW_WIDTH, DEFAULT_WINDOW_HEIGHT),
            opts.gl_version == (DEFAULT_GL_MAJOR, DEFAULT_GL_MINOR),
            !opts.gl_debug_output,
    {
        AppOptions {
            title: "ren".to_owned(),
            window_size: (DEFAULT_WINDOW_WIDTH, DEFAULT_WINDOW_HEIGHT),
            gl_version: (DEFAULT_GL_MAJOR, DEFAULT_GL_MINOR),
            gl_debug_output: false,
        }
    }
}

/// What the window system is asked to create: a hidden window with a
/// core, forward-compatible context of the requested version.
#[derive(Clone, Debug)]
pub struct WindowSetup {
    /// Window title.
    pub title: String,
    /// Window width in pixels.
    pub width: u32,
    /// Window height in pixels.
    pub height: u32,
    /// Requested device-API major version.
    pub gl_major: u32,
    /// Requested device-API minor version.
    pub gl_minor: u32,
    /// Request a core profile.
    pub core_profile: bool,
    /// Request a forward-compatible context.
    pub forward_compat: bool,
    /// Request a debug context.
    pub debug_context: bool,
    /// Whether the window starts visible.  It never does: it is shown
    /// only after the init callback succeeds.
    pub start_visible: bool,
}

impl AppOptions {
    /// The window request for these options.  A debug context is asked
    /// for only when diagnostics are requested and the target version
    /// supports them, and the window is always created hidden.
    pub fn window_setup(&self) -> (w: WindowSetup)
        ensures
            w.title@ == self.title@,
            w.width == self.window_size.0,
            w.height == self.window_size.1,
            w.gl_major == self.gl_version.0,
            w.gl_minor == self.gl_version.1,
            w.core_profile,
            w.forward_compat,
            w.debug_context == (self.gl_debug_output && debug_output_supported(
                self.gl_version.0,
                self.gl_version.1,
            )),
            !w.start_visible,
    {
        let supported = is_debug_output_supported(self.gl_version);
        WindowSetup {
            title: self.title.clone(),
            width: self.window_size.0,
            height: self.window_size.1,
            gl_major: self.gl_version.0,
            gl_minor: self.gl_version.1,
            core_profile: true,
            forward_compat: true,
            debug_context: self.gl_debug_output && supported,
            start_visible: false,
        }
    }
}

/// What a key event did to a key.
#[derive(PartialEq, Eq, Structural, Clone, Copy, Debug)]
pub enum KeyAction {
    /// The key went down.
    Press,
    /// The key went up.
    Release,
    /// The key repeated while held.
    Repeat,
}

/// The keys the loop itself distinguishes.
#[derive(PartialEq, Eq, Structural, Clone, Copy, Debug)]
pub enum KeyCode {
    /// The escape key.
    Escape,
    /// Any other key.
    Other,
}

/// One event from the window system, as the loop classifies it.
#[derive(PartialEq, Eq, Structural, Clone, Copy, Debug)]
pub enum WindowEvent {
    /// The framebuffer was resized to the given width and height.
    FramebufferSize(i32, i32),
    /// A key changed state.
    Key(KeyCode, KeyAction),
    /// The user asked to close the window.
    Close,
    /// Any other event; forwarded but otherwise ignored.
    Other,
}

/// One thing the embedding program performs for the loop, in the order
/// given.
#[derive(PartialEq, Eq, Structural, Clone, Copy, Debug)]
pub enum FrameAction {
    /// Resize the active viewport to the given width and height.
    SetViewport(i32, i32),
    /// Hand the event to the user's event callback.
    ForwardEvent(WindowEvent),
    /// Run the user's per-frame update callback.
    Update,
    /// Run the user's per-frame draw callback.
    Draw,
    /// Present the frame.
    Present,
    /// Report every pending diagnostic as a non-fatal warning.
    DrainDiagnostics,
}

/// Where the run is in its life.
#[derive(PartialEq, Eq, Structural, Clone, Copy, Debug)]
pub enum Phase {
    /// Nothing created yet.
    Uninitialized,
    /// The native context exists and is current.
    ContextReady,
    /// The steady per-frame cycle.
    Running,
    /// A close was requested; the current frame still finishes.
    Closing,
    /// The run is over.
    Terminated,
}

/// The loop's state between steps.
#[derive(PartialEq, Eq, Clone, Copy, Debug)]
pub struct LoopState {
    /// Where the run is.
    pub phase: Phase,
    /// Whether debug-build behavior (escape closes, diagnostics drain)
    /// is active.
    pub debug: bool,
    /// The viewport size last applied.
    pub viewport: (i32, i32),
}

/// What one event does to the state: a resize records the new viewport;
/// a close request — or, in debug mode, an escape key press — moves the
/// phase to `Closing`; everything else changes nothing.
pub open spec fn step_event(s: LoopState, e: WindowEvent) -> LoopState {
    match e {
        WindowEvent::FramebufferSize(w, h) => LoopState { viewport: (w, h), ..s },
        WindowEvent::Close => LoopState { phase: Phase::Closing, ..s },
        WindowEvent::Key(KeyCode::Escape, KeyAction::Press) => if s.debug {
            LoopState { phase: Phase::Closing, ..s }
        } else {
            s
        },
        _ => s,
    }
}

/// The state after a whole batch of events, applied in order.
pub open spec fn events_outcome(s: LoopState, events: Seq<WindowEvent>) -> LoopState
    decreases events.len(),
{
    if events.len() == 0 {
        s
    } else {
        step_event(events_outcome(s, events.drop_last()), events.last())
    }
}

/// The actions one event causes: a resize resizes the viewport first,
/// and every event — the close-causing ones included — is forwarded to
/// the user's event callback.
pub open spec fn event_actions(e: WindowEvent) -> Seq<FrameAction> {
    match e {
        WindowEvent::FramebufferSize(w, h) => seq![
            FrameAction::SetViewport(w, h),
            FrameAction::ForwardEvent(e),
        ],
        _ => seq![FrameAction::ForwardEvent(e)],
    }
}

/// The actions of a whole batch of events, in event order.
pub open spec fn events_actions(events: Seq<WindowEvent>) -> Seq<FrameAction>
    decreases events.len(),
{
    if events.len() == 0 {
        Seq::empty()
    } else {
        events_actions(events.drop_last()) + event_actions(events.last())
    }
}

/// What every frame ends with, whatever the events did: update, draw,
/// present, and in debug mode a diagnostics drain.
pub open spec fn frame_tail(debug: bool) -> Seq<FrameAction> {
    if debug {
        seq![FrameAction::Update, FrameAction::Draw, FrameAction::Present, FrameAction::DrainDiagnostics]
    } else {
        seq![FrameAction::Update, FrameAction::Draw, FrameAction::Present]
    }
}

/// Every action of one frame that saw the given events.
pub open spec fn frame_actions(s: LoopState, events: Seq<WindowEvent>) -> Seq<FrameAction> {
    events_actions(events) + frame_tail(s.debug)
}

impl LoopState {
    /// The state before anything is created.
    pub fn new(opts: &AppOptions, debug: bool) -> (s: Self)
        requires
            opts.window_size.0 <= i32::MAX,
            opts.window_size.1 <= i32::MAX,
        ensures
            s.phase is Uninitialized,
            s.debug == debug,
            s.viewport == (opts.window_size.0 as i32, opts.window_size.1 as i32),
    {
        LoopState {
            phase: Phase::Uninitialized,
            debug,
            viewport: (opts.window_size.0 as i32, opts.window_size.1 as i32),
        }
    }

    /// The native context and hidden window now exist.
    pub fn context_created(&mut self)
        requires
            old(self).phase is Uninitialized,
        ensures
            *final(self) == (LoopState { phase: Phase::ContextReady, ..*old(self) }),
    {
        self.phase = Phase::ContextReady;
    }

    /// The user's init callback finished.  Only on success does the run
    /// enter the frame cycle, and only then is the window shown — a user
    /// never sees a window whose init failed.
    pub fn init_finished(&mut self, ok: bool) -> (show_window: bool)
        requires
            old(self).phase is ContextReady,
        ensures
            ok ==> *final(self) == (LoopState { phase: Phase::Running, ..*old(self) }),
            !ok ==> *final(self) == (LoopState { phase: Phase::Terminated, ..*old(self) }),
            show_window == ok,
    {
        if ok {
            self.phase = Phase::Running;
            true
        } else {
            self.phase = Phase::Terminated;
            false
        }
    }

    /// One frame: applies every pending event to the state and returns
    /// every action of this frame, in order.  A close detected here does
    /// not cut the frame short: the update, draw and present actions
    /// always follow the event actions.
    pub fn run_frame(&mut self, events: &Vec<WindowEvent>) -> (actions: Vec<FrameAction>)
        requires
            old(self).phase is Running,
        ensures
            *final(self) == events_outcome(*old(self), events@),
            actions@ == frame_actions(*old(self), events@),
    {
        let ghost s0 = *self;
        let mut actions: Vec<FrameAction> = Vec::new();
        let mut i: usize = 0;
        while i < events.len()
            invariant
                i <= events@.len(),
                *self == events_outcome(s0, events@.take(i as int)),
                actions@ == events_actions(events@.take(i as int)),
            decreases events@.len() - i,
        {
            let e = events[i];
            match e {
                WindowEvent::FramebufferSize(w, h) => {
                    self.viewport = (w, h);
                    actions.push(FrameAction::SetViewport(w, h));
                },
                WindowEvent::Close => {
                    self.phase = Phase::Closing;
                },
                WindowEvent::Key(code, action) => {
                    if self.debug {
                        match (code, action) {
                            (KeyCode::Escape, KeyAction::Press) => {
                                self.phase = Phase::Closing;
                            },
                            _ => {},
                        }
                    }
                },
                WindowEvent::Other => {},
            }
            actions.push(FrameAction::ForwardEvent(e));
            proof {
                let t = events@.take(i + 1);
                assert(t.drop_last() =~= events@.take(i as int));
                assert(t.last() == e);
                assert(*self == events_outcome(s0, t));
                assert(actions@ =~= events_actions(events@.take(i as int)) + event_actions(e));
            }
            i = i + 1;
        }
        proof {
            assert(events@.take(events@.len() as int) =~= events@);
        }
        let debug = self.debug;
        proof {
            lemma_events_preserve_debug(s0, events@);
        }
        actions.push(FrameAction::Update);
        actions.push(FrameAction::Draw);
        actions.push(FrameAction::Present);
        if debug {
            actions.push(FrameAction::DrainDiagnostics);
        }
        proof {
            assert(actions@ =~= frame_actions(s0, events@));
        }
        actions
    }

    /// Whether the frame cycle goes on: only while the state is
    /// `Running`.
    pub fn should_continue(&self) -> (r: bool)
        ensures
            r == (self.phase is Running),
    {
        match self.phase {
            Phase::Running => true,
            _ => false,
        }
    }

    /// The loop has exited; the context and window are torn down.
    pub fn finish(&mut self)
        requires
            old(self).phase is Running || old(self).phase is Closing,
        ensures
            *final(self) == (LoopState { phase: Phase::Terminated, ..*old(self) }),
    {
        self.phase = Phase::Terminated;
    }
}

/// No event changes the debug flag.
pub proof fn lemma_events_preserve_debug(s: LoopState, events: Seq<WindowEvent>)
    ensures
        events_outcome(s, events).debug == s.debug,
    decreases events.len(),
{
    if events.len() > 0 {
        lemma_events_preserve_debug(s, events.drop_last());
    }
}

/// Batches of events compose: applying `a + b` is applying `a`, then
/// `b`.
pub proof fn lemma_events_outcome_app(s: LoopState, a: Seq<WindowEvent>, b: Seq<WindowEvent>)
    ensures
        events_outcome(s, a + b) == events_outcome(events_outcome(s, a), b),
    decreases b.len(),
{
    if b.len() == 0 {
        assert(a + b =~= a);
    } else {
        lemma_events_outcome_app(s, a, b.drop_last());
        assert((a + b).drop_last() =~= a + b.drop_last());
        assert((a + b).last() == b.last());
    }
}

/// Once the state is closing, no further event reopens it.
pub proof fn lemma_closing_persists(s: LoopState, events: Seq<WindowEvent>)
    requires
        s.phase is Closing,
    ensures
        events_outcome(s, events).phase is Closing,
    decreases events.len(),
{
    if events.len() > 0 {
        lemma_closing_persists(s, events.drop_last());
    }
}

/// A close request among a frame's events ends the run — the state
/// after the events is `Closing` — yet the frame is not cut short: the
/// frame's actions still contain, after every event action, the update,
/// draw and present of that same iteration.
pub proof fn lemma_close_request_completes_frame(s: LoopState, events: Seq<WindowEvent>, i: int)
    requires
        s.phase is Running,
        0 <= i < events.len(),
        events[i] is Close,
    ensures
        events_outcome(s, events).phase is Closing,
        frame_actions(s, events) == events_actions(events) + frame_tail(s.debug),
        frame_actions(s, events)[events_actions(events).len() as int] is Update,
        frame_actions(s, events)[events_actions(events).len() as int + 1] is Draw,
        frame_actions(s, events)[events_actions(events).len() as int + 2] is Present,
{
    let front = events.take(i + 1);
    let back = events.skip(i + 1);
    assert(front + back =~= events);
    lemma_events_outcome_app(s, front, back);
    assert(front.drop_last() =~= events.take(i));
    assert(front.last() == events[i]);
    assert(events_outcome(s, front).phase is Closing);
    lemma_closing_persists(events_outcome(s, front), back);
    let n = events_actions(events).len() as int;
    assert(frame_actions(s, events)[n] == frame_tail(s.debug)[0]);
    assert(frame_actions(s, events)[n + 1] == frame_tail(s.debug)[1]);
    assert(frame_actions(s, events)[n + 2] == frame_tail(s.debug)[2]);
}

/// In debug mode, an escape key press causes exactly the transition of
/// an explicit close request.
pub proof fn lemma_escape_matches_close(s: LoopState)
    requires
        s.debug,
    ensures
        step_event(s, WindowEvent::Key(KeyCode::Escape, KeyAction::Press)) == step_event(
            s,
            WindowEvent::Close,
        ),
{
}

/// The actions of events are never a draw.
proof fn lemma_event_part_no_draw(events: Seq<WindowEvent>, k: int)
    requires
        0 <= k < events_actions(events).len(),
    ensures
        !(events_actions(events)[k] is Draw),
    decreases events.len(),
{
    if events.len() > 0 {
        let front = events_actions(events.drop_last());
        if k < front.len() {
            lemma_event_part_no_draw(events.drop_last(), k);
        }
    }
}

/// Within one frame, every viewport resize happens strictly before the
/// frame's draw.
pub proof fn lemma_resize_applied_before_draw(
    s: LoopState,
    events: Seq<WindowEvent>,
    i: int,
    j: int,
)
    requires
        0 <= i < frame_actions(s, events).len(),
        0 <= j < frame_actions(s, events).len(),
        frame_actions(s, events)[i] is SetViewport,
        frame_actions(s, events)[j] is Draw,
    ensures
        i < j,
{
    let n = events_actions(events).len() as int;
    if i >= n {
        assert(frame_actions(s, events)[i] == frame_tail(s.debug)[i - n]);
        assert(false);
    }
    if j < n {
        lemma_event_part_no_draw(events, j);
        assert(false);
    }
}

/// Runs one user callback once against a fresh context, with no window
/// and no loop: context setup only, for offscreen or test use.  The
/// callback gets ownership of the context and hands it back; handing it
/// back ends it.
pub fn run_headless_once<F: FnOnce(RenderingContext) -> RenderingContext>(f: F)
    requires
        forall|c: RenderingContext|
            (c.wf() && c.context_tag() == 0 && c.next_handle() == 1 && c.live_ids()
                == Seq::<u32>::empty()) ==> #[trigger] call_requires(f, (c,)),
{
    let ctx = RenderingContext::new(0);
    let _ctx = f(ctx);
}

} // verus!
