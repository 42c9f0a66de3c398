use ren::{
    run_headless_once, AppOptions, FrameAction, GLHandle, KeyAction, KeyCode, LoopState, Phase,
    WindowEvent,
};

fn running_state(debug: bool) -> LoopState {
    let opts = AppOptions::default();
    let mut s = LoopState::new(&opts, debug);
    s.context_created();
    let show = s.init_finished(true);
    assert!(show);
    assert_eq!(s.phase, Phase::Running);
    s
}

#[test]
fn default_options() {
    let opts = AppOptions::default();
    assert_eq!(opts.title, "ren");
    assert_eq!(opts.window_size, (856, 482));
    assert_eq!(opts.gl_version, (4, 5));
    assert!(!opts.gl_debug_output);
}

#[test]
fn window_setup_follows_options() {
    let opts = AppOptions {
        title: "demo".to_string(),
        window_size: (320, 200),
        gl_version: (4, 5),
        gl_debug_output: true,
    };
    let w = opts.window_setup();
    assert_eq!(w.title, "demo");
    assert_eq!((w.width, w.height), (320, 200));
    assert_eq!((w.gl_major, w.gl_minor), (4, 5));
    assert!(w.core_profile);
    assert!(w.forward_compat);
    assert!(w.debug_context);
    // The window is always created hidden.
    assert!(!w.start_visible);

    let old = AppOptions { gl_version: (4, 1), ..AppOptions::default() };
    let w = old.window_setup();
    // 4.1 has no debug output, and diagnostics were not requested either.
    assert!(!w.debug_context);
}

#[test]
fn init_failure_terminates_before_window_is_shown() {
    let opts = AppOptions::default();
    let mut s = LoopState::new(&opts, false);
    assert_eq!(s.phase, Phase::Uninitialized);
    s.context_created();
    assert_eq!(s.phase, Phase::ContextReady);
    let show = s.init_finished(false);
    assert!(!show);
    assert_eq!(s.phase, Phase::Terminated);
    assert!(!s.should_continue());
}

#[test]
fn close_request_still_finishes_the_frame() {
    let mut s = running_state(false);
    let events = vec![WindowEvent::Other, WindowEvent::Close, WindowEvent::Other];
    let actions = s.run_frame(&events);
    // The close was seen mid-iteration...
    assert_eq!(s.phase, Phase::Closing);
    assert!(!s.should_continue());
    // ...yet update, draw and present of this iteration still run,
    // after every event was forwarded.
    assert_eq!(
        actions,
        vec![
            FrameAction::ForwardEvent(WindowEvent::Other),
            FrameAction::ForwardEvent(WindowEvent::Close),
            FrameAction::ForwardEvent(WindowEvent::Other),
            FrameAction::Update,
            FrameAction::Draw,
            FrameAction::Present,
        ]
    );
    s.finish();
    assert_eq!(s.phase, Phase::Terminated);
}

#[test]
fn escape_press_closes_like_a_close_request_in_debug() {
    let mut by_escape = running_state(true);
    let mut by_close = running_state(true);
    by_escape.run_frame(&vec![WindowEvent::Key(KeyCode::Escape, KeyAction::Press)]);
    by_close.run_frame(&vec![WindowEvent::Close]);
    // The transition is identical.
    assert_eq!(by_escape.phase, by_close.phase);
    assert_eq!(by_escape, by_close);
    assert_eq!(by_escape.phase, Phase::Closing);
}

#[test]
fn escape_does_not_close_outside_debug_or_without_press() {
    let mut s = running_state(false);
    s.run_frame(&vec![WindowEvent::Key(KeyCode::Escape, KeyAction::Press)]);
    assert_eq!(s.phase, Phase::Running);

    let mut s = running_state(true);
    s.run_frame(&vec![WindowEvent::Key(KeyCode::Escape, KeyAction::Release)]);
    assert_eq!(s.phase, Phase::Running);
    s.run_frame(&vec![WindowEvent::Key(KeyCode::Other, KeyAction::Press)]);
    assert_eq!(s.phase, Phase::Running);
}

#[test]
fn resize_sets_viewport_before_the_draw() {
    let mut s = running_state(false);
    let actions = s.run_frame(&vec![WindowEvent::Other, WindowEvent::FramebufferSize(100, 50)]);
    assert_eq!(s.viewport, (100, 50));
    let set_at = actions
        .iter()
        .position(|a| matches!(a, FrameAction::SetViewport(100, 50)))
        .expect("viewport action present");
    let draw_at = actions
        .iter()
        .position(|a| matches!(a, FrameAction::Draw))
        .expect("draw action present");
    assert!(set_at < draw_at);
    // The resize is applied right before the event is forwarded.
    assert_eq!(actions[set_at + 1], FrameAction::ForwardEvent(WindowEvent::FramebufferSize(100, 50)));
}

#[test]
fn debug_frames_end_with_a_diagnostics_drain() {
    let mut s = running_state(true);
    let actions = s.run_frame(&vec![]);
    assert_eq!(
        actions,
        vec![
            FrameAction::Update,
            FrameAction::Draw,
            FrameAction::Present,
            FrameAction::DrainDiagnostics,
        ]
    );
    let mut s = running_state(false);
    let actions = s.run_frame(&vec![]);
    assert_eq!(actions, vec![FrameAction::Update, FrameAction::Draw, FrameAction::Present]);
}

#[test]
fn last_resize_of_a_frame_wins() {
    let mut s = running_state(false);
    s.run_frame(&vec![
        WindowEvent::FramebufferSize(10, 10),
        WindowEvent::FramebufferSize(20, 30),
    ]);
    assert_eq!(s.viewport, (20, 30));
}

#[test]
fn headless_run_hands_a_fresh_context_to_the_callback() {
    run_headless_once(|mut ctx| {
        assert_eq!(ctx.live_handles(), 0);
        let buf = ctx.create_buffer();
        assert_eq!(buf.gl_handle(), 1);
        buf.destroy(&mut ctx);
        assert_eq!(ctx.live_handles(), 0);
        ctx
    });
}
