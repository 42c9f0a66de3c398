use ren::{
    DriverStatus, LinkReport, RenderingContext, SetUniform, Shader, UniformValue,
};

fn passed() -> DriverStatus {
    DriverStatus { success: true, log: None }
}

fn linked_program(ctx: &mut RenderingContext, uniforms: &[&str]) -> Shader {
    let vs = ctx.create_shader_stage_vertex(passed()).unwrap();
    let stages = vec![vs];
    let report = LinkReport {
        link: passed(),
        validation: passed(),
        active_uniforms: uniforms.iter().map(|s| s.to_string()).collect(),
    };
    ctx.create_shader(&stages, report).expect("link was reported ok")
}

#[test]
fn absent_uniform_is_none_on_program_without_uniforms() {
    let mut ctx = RenderingContext::new(2);
    let shader = linked_program(&mut ctx, &[]);
    assert!(shader.uniform_location(&"color".to_string()).is_none());
    assert!(shader.uniform_location(&"".to_string()).is_none());
}

#[test]
fn absent_uniform_is_none_on_program_with_several_uniforms() {
    let mut ctx = RenderingContext::new(2);
    let shader = linked_program(&mut ctx, &["color", "mvp", "tex0"]);
    assert!(shader.uniform_location(&"normal_matrix".to_string()).is_none());
    assert!(shader.uniform_location(&"COLOR".to_string()).is_none());
}

#[test]
fn present_uniform_gets_its_location() {
    let mut ctx = RenderingContext::new(2);
    let shader = linked_program(&mut ctx, &["color", "mvp", "tex0"]);
    let loc = shader.uniform_location(&"mvp".to_string()).expect("mvp is active");
    assert_eq!(loc.index(), 1);
    let loc0 = shader.uniform_location(&"color".to_string()).expect("color is active");
    assert_eq!(loc0.index(), 0);
}

#[test]
fn duplicate_uniform_name_resolves_to_first_location() {
    let mut ctx = RenderingContext::new(2);
    let shader = linked_program(&mut ctx, &["a", "b", "a"]);
    let loc = shader.uniform_location(&"a".to_string()).expect("a is active");
    assert_eq!(loc.index(), 0);
}

#[test]
fn set_uniform_records_the_value() {
    let mut ctx = RenderingContext::new(2);
    let mut shader = linked_program(&mut ctx, &["mode", "offsets"]);
    let mode = shader.uniform_location(&"mode".to_string()).unwrap();
    let offsets = shader.uniform_location(&"offsets".to_string()).unwrap();
    assert_eq!(shader.uniform_value(mode), None);

    shader.set_uniform(mode, 3i32);
    assert_eq!(shader.uniform_value(mode), Some(UniformValue::I1(3)));

    shader.set_uniform(offsets, (4i32, 5i32));
    assert_eq!(shader.uniform_value(offsets), Some(UniformValue::I2(4, 5)));
    assert_eq!(shader.uniform_value(mode), Some(UniformValue::I1(3)));

    shader.set_uniform(mode, [7i32, 8, 9]);
    assert_eq!(shader.uniform_value(mode), Some(UniformValue::I3(7, 8, 9)));

    shader.set_uniform(offsets, (1i32, 2i32, 3i32, 4i32));
    assert_eq!(shader.uniform_value(offsets), Some(UniformValue::I4(1, 2, 3, 4)));
}
