use ren::{
    AttribBindPoint, AttribBinding, AttribFormat, AttribKind, BufferUsage, DrawCommand, DrawMode,
    GLHandle, RenderingContext, SetupStep, VertexArrayDesc,
};

#[test]
fn setup_steps_come_in_device_order() {
    let mut ctx = RenderingContext::new(4);
    let positions = ctx.create_buffer_with_data(BufferUsage::Static, &[0u8; 36]);
    let colors = ctx.create_buffer_with_data(BufferUsage::Static, &[0u8; 24]);
    let desc = VertexArrayDesc::new()
        .with_buffer(&positions)
        .with_buffer(&colors)
        .with_bind_point(AttribBindPoint::new(0, 0, 12))
        .with_bind_point(AttribBindPoint::new(1, 0, 8))
        .with_binding(AttribBinding::new(0, 0))
        .with_binding(AttribBinding::new(1, 1))
        .with_attrib(AttribFormat::new(0, AttribKind::Float3))
        .with_attrib(AttribFormat::with_offset(1, AttribKind::Float2, 4));

    let steps = desc.apply();
    let expected = vec![
        SetupStep::BindBuffer {
            binding_index: 0,
            buffer: positions.gl_handle(),
            offset: 0,
            stride: 12,
        },
        SetupStep::BindBuffer {
            binding_index: 1,
            buffer: colors.gl_handle(),
            offset: 0,
            stride: 8,
        },
        SetupStep::LinkAttrib { attrib_index: 0, binding_index: 0 },
        SetupStep::LinkAttrib { attrib_index: 1, binding_index: 1 },
        SetupStep::EnableAttrib { index: 0 },
        SetupStep::FormatAttrib {
            index: 0,
            format: AttribFormat { index: 0, kind: AttribKind::Float3, offset: 0 },
        },
        SetupStep::EnableAttrib { index: 1 },
        SetupStep::FormatAttrib {
            index: 1,
            format: AttribFormat { index: 1, kind: AttribKind::Float2, offset: 4 },
        },
    ];
    assert_eq!(steps, expected);

    let va = ctx.create_vertex_array(&desc);
    assert_ne!(va.gl_handle(), 0);
    assert_eq!(ctx.live_handles(), 3);
}

#[test]
fn empty_descriptor_yields_no_steps() {
    let desc = VertexArrayDesc::new();
    assert_eq!(desc.apply(), Vec::new());
}

#[test]
fn triangle_draws_count_three_vertices_per_triangle() {
    let mut ctx = RenderingContext::new(4);
    let va = ctx.create_vertex_array(&VertexArrayDesc::new());
    let c = va.draw_triangles(2, 5);
    assert_eq!(c, DrawCommand { mode: DrawMode::Triangles, first: 6, count: 15 });
    let p = va.draw_points(7, 9);
    assert_eq!(p, DrawCommand { mode: DrawMode::Points, first: 7, count: 9 });
}

#[test]
fn attrib_constructors_fill_their_fields() {
    let a = AttribFormat::new(3, AttribKind::Float4);
    assert_eq!(a, AttribFormat { index: 3, kind: AttribKind::Float4, offset: 0 });
    let b = AttribFormat::typed_offset::<[f32; 3]>(1, AttribKind::Float3);
    assert_eq!(b.offset, 12);
    let p = AttribBindPoint::typed_stride::<[f32; 2]>(0, 4);
    assert_eq!(p, AttribBindPoint { binding_index: 0, offset: 4, stride: 8 });
    let w = AttribBinding::new(2, 1);
    assert_eq!(w, AttribBinding { attrib_index: 2, buffer_binding_index: 1 });
}

#[test]
fn component_counts_match_kinds() {
    assert_eq!(AttribKind::Float1.component_count(), 1);
    assert_eq!(AttribKind::Float2.component_count(), 2);
    assert_eq!(AttribKind::Float3.component_count(), 3);
    assert_eq!(AttribKind::Float4.component_count(), 4);
}
