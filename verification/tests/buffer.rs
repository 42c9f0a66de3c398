use ren::{Buffer, BufferUsage, GLHandle, RenderingContext};

#[test]
fn write_then_read_returns_written_bytes() {
    let mut ctx = RenderingContext::new(1);
    let buf = ctx.create_buffer_with_data(BufferUsage::Static, &[10u8, 20, 30, 40, 50]);
    assert_eq!(buf.size(), 5);
    assert_eq!(buf.read(0, 5), vec![10u8, 20, 30, 40, 50]);
    assert_eq!(buf.read(1, 3), vec![20u8, 30, 40]);
    assert_eq!(buf.read(4, 1), vec![50u8]);
    assert_eq!(buf.read(5, 0), Vec::<u8>::new());
}

#[test]
fn write_replaces_entire_contents() {
    let mut ctx = RenderingContext::new(1);
    let mut buf = ctx.create_buffer();
    assert_eq!(buf.size(), 0);
    buf.write(BufferUsage::Stream, &[1u8, 2, 3]);
    assert_eq!(buf.size(), 3);
    buf.write(BufferUsage::Dynamic, &[9u8]);
    assert_eq!(buf.size(), 1);
    assert_eq!(buf.read(0, 1), vec![9u8]);
}

#[test]
fn out_of_bounds_read_is_refused() {
    let mut ctx = RenderingContext::new(1);
    let buf = ctx.create_buffer_with_data(BufferUsage::Static, &[1u8, 2, 3, 4, 5]);
    assert!(buf.read_checked(3, 3).is_none());
    assert!(buf.read_checked(0, 6).is_none());
    assert!(buf.read_checked(6, 0).is_none());
    assert_eq!(buf.read_checked(2, 3), Some(vec![3u8, 4, 5]));
    assert_eq!(buf.read_checked(5, 0), Some(Vec::new()));
}

#[test]
fn empty_buffer_rejects_any_nonempty_read() {
    let mut ctx = RenderingContext::new(1);
    let buf = ctx.create_buffer();
    assert!(buf.read_checked(0, 1).is_none());
    assert_eq!(buf.read_checked(0, 0), Some(Vec::new()));
}

#[test]
fn buffers_get_distinct_nonzero_handles() {
    let mut ctx = RenderingContext::new(1);
    let bufs = ctx.create_buffers(3);
    assert_eq!(bufs.len(), 3);
    let ids: Vec<u32> = bufs.iter().map(|b| b.gl_handle()).collect();
    assert_eq!(ids, vec![1, 2, 3]);
    assert_eq!(ctx.live_handles(), 3);
    for b in &bufs {
        assert!(ctx.is_handle_live(b.gl_handle()));
    }
}

#[test]
fn destroy_releases_exactly_one_handle() {
    let mut ctx = RenderingContext::new(1);
    let a = Buffer::new(&mut ctx);
    let b = Buffer::new(&mut ctx);
    let a_id = a.gl_handle();
    let b_id = b.gl_handle();
    assert_eq!(ctx.live_handles(), 2);
    a.destroy(&mut ctx);
    assert_eq!(ctx.live_handles(), 1);
    assert!(!ctx.is_handle_live(a_id));
    assert!(ctx.is_handle_live(b_id));
    b.destroy(&mut ctx);
    assert_eq!(ctx.live_handles(), 0);
}

#[test]
fn handle_ids_are_never_reused() {
    let mut ctx = RenderingContext::new(1);
    let a = Buffer::new(&mut ctx);
    let a_id = a.gl_handle();
    a.destroy(&mut ctx);
    let b = Buffer::new(&mut ctx);
    assert_ne!(b.gl_handle(), a_id);
    assert_ne!(b.gl_handle(), 0);
}
