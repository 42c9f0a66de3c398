use ren::{
    DriverStatus, GLHandle, LinkReport, RenderingContext, ShaderError, ShaderStageError,
    ShaderStageKind,
};

fn failed(log: &str) -> DriverStatus {
    DriverStatus { success: false, log: Some(log.to_string()) }
}

fn passed() -> DriverStatus {
    DriverStatus { success: true, log: None }
}

fn report_ok(uniforms: &[&str]) -> LinkReport {
    LinkReport {
        link: passed(),
        validation: passed(),
        active_uniforms: uniforms.iter().map(|s| s.to_string()).collect(),
    }
}

#[test]
fn compile_failure_carries_kind_and_log_and_releases_id() {
    let kinds = [
        ShaderStageKind::Vertex,
        ShaderStageKind::Fragment,
        ShaderStageKind::Geometry,
        ShaderStageKind::Compute,
    ];
    for kind in kinds {
        let mut ctx = RenderingContext::new(7);
        let r = ctx.create_shader_stage(kind, failed("0:1: syntax error"));
        match r {
            Err(ShaderStageError::Compile(raw, k, log)) => {
                assert_eq!(k, kind);
                assert!(!log.is_empty());
                assert_eq!(log, "0:1: syntax error");
                assert_eq!(raw.gl_handle(), 1);
            }
            Ok(_) => panic!("compilation was reported as failed"),
        }
        // The stage id was allocated and then released exactly once.
        assert_eq!(ctx.live_handles(), 0);
        assert!(!ctx.is_handle_live(1));
    }
}

#[test]
fn compile_failure_without_log_gets_placeholder() {
    let mut ctx = RenderingContext::new(7);
    let r = ctx.create_shader_stage(ShaderStageKind::Vertex, DriverStatus {
        success: false,
        log: None,
    });
    match r {
        Err(ShaderStageError::Compile(_, _, log)) => assert_eq!(log, "[no log]"),
        Ok(_) => panic!("compilation was reported as failed"),
    }
}

#[test]
fn compile_success_keeps_stage_live() {
    let mut ctx = RenderingContext::new(7);
    let stage = ctx
        .create_shader_stage(ShaderStageKind::Fragment, passed())
        .expect("compilation was reported as successful");
    assert_eq!(stage.kind(), ShaderStageKind::Fragment);
    assert_ne!(stage.gl_handle(), 0);
    assert_eq!(ctx.live_handles(), 1);
    assert!(ctx.is_handle_live(stage.gl_handle()));
}

#[test]
fn stage_kind_names() {
    assert_eq!(ShaderStageKind::Vertex.name(), "vertex");
    assert_eq!(ShaderStageKind::Fragment.name(), "fragment");
    assert_eq!(ShaderStageKind::Geometry.name(), "geometry");
    assert_eq!(ShaderStageKind::Compute.name(), "compute");
}

#[test]
fn link_failure_yields_link_error_and_releases_program_id() {
    let mut ctx = RenderingContext::new(7);
    let vs = ctx.create_shader_stage_vertex(passed()).unwrap();
    let fs = ctx.create_shader_stage_fragment(passed()).unwrap();
    let stages = vec![vs, fs];
    let report = LinkReport {
        link: DriverStatus { success: false, log: Some("unresolved symbol".to_string()) },
        validation: passed(),
        active_uniforms: Vec::new(),
    };
    let r = ctx.create_shader(&stages, report);
    match r {
        Err(ShaderError::Link(raw, log)) => {
            assert_eq!(raw.gl_handle(), 3);
            assert_eq!(log, "unresolved symbol");
        }
        _ => panic!("linking was reported as failed"),
    }
    // Only the two stages stay live; the program id came and went.
    assert_eq!(ctx.live_handles(), 2);
    assert!(!ctx.is_handle_live(3));
}

#[test]
fn validation_failure_is_distinct_from_link_failure() {
    let mut ctx = RenderingContext::new(7);
    let vs = ctx.create_shader_stage_vertex(passed()).unwrap();
    let stages = vec![vs];
    let report = LinkReport {
        link: passed(),
        validation: DriverStatus { success: false, log: Some("no bound pipeline".to_string()) },
        active_uniforms: Vec::new(),
    };
    let r = ctx.create_shader(&stages, report);
    match r {
        Err(ShaderError::Validation(raw, log)) => {
            assert_ne!(raw.gl_handle(), 0);
            assert_eq!(log, "no bound pipeline");
        }
        _ => panic!("validation was reported as failed"),
    }
    assert_eq!(ctx.live_handles(), 1);
}

#[test]
fn linked_program_stays_live_with_its_stages() {
    let mut ctx = RenderingContext::new(7);
    let vs = ctx.create_shader_stage_vertex(passed()).unwrap();
    let fs = ctx.create_shader_stage_fragment(passed()).unwrap();
    let stages = vec![vs, fs];
    let shader = ctx.create_shader(&stages, report_ok(&[])).expect("link was reported ok");
    assert_ne!(shader.gl_handle(), 0);
    assert_eq!(ctx.live_handles(), 3);
    shader.destroy(&mut ctx);
    assert_eq!(ctx.live_handles(), 2);
    for s in stages {
        s.destroy(&mut ctx);
    }
    assert_eq!(ctx.live_handles(), 0);
}
