use ren::{
    GLHandle, InternalFormat, PixelFormat, RenderingContext, TextureFilter, TextureWrap,
};

#[test]
fn texture_keeps_its_created_size() {
    let mut ctx = RenderingContext::new(3);
    let tex = ctx.create_texture((64, 32), InternalFormat::Rgba8);
    assert_eq!(tex.size(), (64, 32));
    assert_ne!(tex.gl_handle(), 0);
    assert_eq!(ctx.live_handles(), 1);
}

#[test]
fn sub_image_inside_the_texture_is_accepted() {
    let mut ctx = RenderingContext::new(3);
    let mut tex = ctx.create_texture((64, 32), InternalFormat::R8);
    assert!(tex.fits_sub_image((0, 0), (64, 32)));
    assert!(tex.fits_sub_image((63, 31), (1, 1)));
    assert!(tex.fits_sub_image((10, 10), (0, 0)));
    let pixels = vec![0u8; 16];
    tex.upload_sub_image_data((2, 3), (4, 4), PixelFormat::R, &pixels);
    assert_eq!(tex.upload_count(), 1);
    tex.upload_image_data((64, 32), PixelFormat::R, &vec![0u8; 64 * 32]);
    assert_eq!(tex.upload_count(), 2);
    assert_eq!(tex.size(), (64, 32));
}

#[test]
fn sub_image_past_the_edge_is_rejected_not_clipped() {
    let mut ctx = RenderingContext::new(3);
    let tex = ctx.create_texture((64, 32), InternalFormat::R8);
    // origin + extent exceeds the created size on either axis
    assert!(!tex.fits_sub_image((0, 0), (65, 32)));
    assert!(!tex.fits_sub_image((0, 0), (64, 33)));
    assert!(!tex.fits_sub_image((1, 0), (64, 32)));
    assert!(!tex.fits_sub_image((0, 32), (1, 1)));
    assert!(!tex.fits_sub_image((64, 0), (1, 1)));
}

#[test]
fn sub_image_outside_signed_range_is_rejected() {
    let mut ctx = RenderingContext::new(3);
    let tex = ctx.create_texture((1024, 1024), InternalFormat::R8);
    assert!(!tex.fits_sub_image((u32::MAX, 0), (0, 1)));
    assert!(!tex.fits_sub_image((0, 0), (i32::MAX as u32, 1)));
}

#[test]
fn wrap_and_filter_can_be_set() {
    let mut ctx = RenderingContext::new(3);
    let mut tex = ctx.create_texture((8, 8), InternalFormat::Rg8);
    tex.set_wrap(TextureWrap::Repeat);
    tex.set_wrap_u(TextureWrap::MirroredRepeat);
    tex.set_wrap_v(TextureWrap::ClampToEdge);
    tex.set_filter(TextureFilter::Linear);
    assert_eq!(tex.size(), (8, 8));
    assert_eq!(tex.upload_count(), 0);
}

#[test]
fn texture_destroy_releases_its_handle() {
    let mut ctx = RenderingContext::new(3);
    let tex = ctx.create_texture((4, 4), InternalFormat::Rgb8);
    let id = tex.gl_handle();
    tex.destroy(&mut ctx);
    assert_eq!(ctx.live_handles(), 0);
    assert!(!ctx.is_handle_live(id));
}

#[test]
fn default_wrap_and_filter() {
    assert_eq!(TextureWrap::default(), TextureWrap::ClampToEdge);
    assert_eq!(TextureFilter::default(), TextureFilter::Nearest);
}
