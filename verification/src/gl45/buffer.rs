//! Device buffers: a handle plus the bytes the device holds for it.
//!
//! A write replaces the whole contents and records the new byte size; a
//! read must stay inside the recorded size, so it can never return
//! truncated or invented bytes.

use vstd::prelude::*;

use super::{GLHandle, RenderingContext};

verus! {

/// How often a buffer's contents will be modified and used.  A pure
/// performance hint with no behavioral contract.
#[derive(PartialEq, Eq, Structural, Clone, Copy, Debug)]
pub enum BufferUsage {
    /// Modified once and used a few times.
    Stream,
    /// Modified once and used many times.
    Static,
    /// Modified repeatedly and used many times.
    Dynamic,
}

/// A device buffer owned by the context whose tag it carries.
#[derive(Debug)]
pub struct Buffer {
    handle: u32,
    tag: u64,
    usage: Option<BufferUsage>,
    data: Vec<u8>,
}

impl View for Buffer {
    type V = Seq<u8>;

    /// The bytes the device currently holds for this buffer.
    closed spec fn view(&self) -> Seq<u8> {
        self.data@
    }
}

/// Whether a read of `len` bytes at byte `offset` stays inside contents
/// of the given length.
pub open spec fn read_in_bounds(contents_len: nat, offset: nat, len: nat) -> bool {
    offset + len <= contents_len
}

/// The bytes an in-bounds read returns: exactly the stored range.
pub open spec fn read_result(contents: Seq<u8>, offset: int, len: int) -> Seq<u8> {
    contents.subrange(offset, offset + len)
}

/// A write followed by an in-bounds read at `(offset, len)` returns
/// exactly the written bytes of that range.
pub proof fn lemma_write_then_read(written: Seq<u8>, offset: nat, len: nat)
    requires
        read_in_bounds(written.len(), offset, len),
    ensures
        read_result(written, offset as int, len as int) == written.subrange(
            offset as int,
            offset as int + len as int,
        ),
{
}

impl Buffer {
    /// The native id of this buffer.
    pub closed spec fn handle_id(&self) -> u32 {
        self.handle
    }

    /// The tag of the context that created this buffer.
    pub closed spec fn context_tag(&self) -> u64 {
        self.tag
    }

    /// The usage hint of the last write, if any write happened.
    pub closed spec fn usage_hint(&self) -> Option<BufferUsage> {
        self.usage
    }

    /// Creates an empty buffer with a fresh id from `ctx`.
    pub fn new(ctx: &mut RenderingContext) -> (buf: Self)
        requires
            old(ctx).wf(),
            old(ctx).next_handle() < u32::MAX,
        ensures
            final(ctx).wf(),
            final(ctx).context_tag() == old(ctx).context_tag(),
            final(ctx).next_handle() == old(ctx).next_handle() + 1,
            final(ctx).live_ids() == old(ctx).live_ids().push(buf.handle_id()),
            buf.handle_id() == old(ctx).next_handle(),
            buf.handle_id() != 0,
            buf.context_tag() == old(ctx).context_tag(),
            buf.usage_hint() is None,
            buf@ == Seq::<u8>::empty(),
    {
        let id = ctx.allocate_handle();
        Buffer { handle: id, tag: ctx.current_tag(), usage: None, data: Vec::new() }
    }

    /// Creates `n` empty buffers, each with its own fresh id.
    pub fn new_multi(ctx: &mut RenderingContext, n: usize) -> (bufs: Vec<Self>)
        requires
            old(ctx).wf(),
            old(ctx).next_handle() + n <= u32::MAX,
        ensures
            final(ctx).wf(),
            final(ctx).context_tag() == old(ctx).context_tag(),
            final(ctx).next_handle() == old(ctx).next_handle() + n,
            bufs.len() == n,
            forall|i: int|
                0 <= i < n ==> (#[trigger] bufs[i]).handle_id() == old(ctx).next_handle() + i,
            forall|i: int|
                0 <= i < n ==> (#[trigger] bufs[i]).context_tag() == old(ctx).context_tag(),
            forall|i: int| 0 <= i < n ==> (#[trigger] bufs[i])@ == Seq::<u8>::empty(),
            forall|i: int| 0 <= i < n ==> final(ctx).is_live((#[trigger] bufs[i]).handle_id()),
            final(ctx).live_ids() == old(ctx).live_ids() + bufs@.map_values(
                |b: Buffer| b.handle_id(),
            ),
    {
        let mut bufs: Vec<Self> = Vec::new();
        let mut i: usize = 0;
        while i < n
            invariant
                ctx.wf(),
                i <= n,
                ctx.context_tag() == old(ctx).context_tag(),
                old(ctx).next_handle() + n <= u32::MAX,
                ctx.next_handle() == old(ctx).next_handle() + i,
                bufs.len() == i,
                forall|j: int|
                    0 <= j < i ==> (#[trigger] bufs[j]).handle_id() == old(ctx).next_handle()
                        + j,
                forall|j: int|
                    0 <= j < i ==> (#[trigger] bufs[j]).context_tag() == old(
                        ctx,
                    ).context_tag(),
                forall|j: int| 0 <= j < i ==> (#[trigger] bufs[j])@ == Seq::<u8>::empty(),
                ctx.live_ids() == old(ctx).live_ids() + bufs@.map_values(
                    |b: Buffer| b.handle_id(),
                ),
            decreases n - i,
        {
            let ghost pre_map = bufs@.map_values(|b: Buffer| b.handle_id());
            let buf = Buffer::new(ctx);
            bufs.push(buf);
            proof {
                assert(bufs@.map_values(|b: Buffer| b.handle_id()) =~= pre_map.push(
                    bufs@.last().handle_id(),
                ));
                assert(ctx.live_ids() =~= old(ctx).live_ids() + bufs@.map_values(
                    |b: Buffer| b.handle_id(),
                ));
            }
            i = i + 1;
        }
        proof {
            assert forall|j: int| 0 <= j < n implies final(ctx).is_live(
                (#[trigger] bufs[j]).handle_id(),
            ) by {
                let m = bufs@.map_values(|b: Buffer| b.handle_id());
                assert(final(ctx).live_ids()[old(ctx).live_ids().len() + j] == m[j]);
            }
        }
        bufs
    }

    /// Creates a buffer and writes `data` into it.
    pub fn with_data(ctx: &mut RenderingContext, usage: BufferUsage, data: &[u8]) -> (buf: Self)
        requires
            old(ctx).wf(),
            old(ctx).next_handle() < u32::MAX,
        ensures
            final(ctx).wf(),
            final(ctx).context_tag() == old(ctx).context_tag(),
            final(ctx).next_handle() == old(ctx).next_handle() + 1,
            final(ctx).live_ids() == old(ctx).live_ids().push(buf.handle_id()),
            buf.handle_id() == old(ctx).next_handle(),
            buf.context_tag() == old(ctx).context_tag(),
            buf.usage_hint() == Some(usage),
            buf@ == data@,
    {
        let mut buf = Buffer::new(ctx);
        buf.write(usage, data);
        buf
    }

    /// Replaces the entire contents and records the new byte size.
    pub fn write(&mut self, usage: BufferUsage, data: &[u8])
        ensures
            final(self).handle_id() == old(self).handle_id(),
            final(self).context_tag() == old(self).context_tag(),
            final(self).usage_hint() == Some(usage),
            final(self)@ == data@,
    {
        let mut copy: Vec<u8> = Vec::new();
        let mut i: usize = 0;
        while i < data.len()
            invariant
                i <= data@.len(),
                copy@ == data@.subrange(0, i as int),
            decreases data@.len() - i,
        {
            copy.push(data[i]);
            proof {
                assert(copy@ =~= data@.subrange(0, i + 1));
            }
            i = i + 1;
        }
        proof {
            assert(copy@ =~= data@);
        }
        self.usage = Some(usage);
        self.data = copy;
    }

    /// Reads `len` bytes starting at byte `offset`.
    ///
    /// The range must lie inside the recorded size; an out-of-range read
    /// is a contract violation of the caller, never a truncated result.
    pub fn read(&self, offset: usize, len: usize) -> (out: Vec<u8>)
        requires
            read_in_bounds(self@.len(), offset as nat, len as nat),
        ensures
            out@ == read_result(self@, offset as int, len as int),
    {
        let n = self.data.len();
        let mut out: Vec<u8> = Vec::new();
        let mut i: usize = 0;
        while i < len
            invariant
                i <= len,
                offset + len <= n == self@.len(),
                out@ == self@.subrange(offset as int, offset + i),
            decreases len - i,
        {
            out.push(self.data[offset + i]);
            proof {
                assert(out@ =~= self@.subrange(offset as int, offset + i + 1));
            }
            i = i + 1;
        }
        out
    }

    /// Reads like [`Buffer::read`], but answers `None` instead of
    /// demanding an in-bounds range from the caller.
    pub fn read_checked(&self, offset: usize, len: usize) -> (out: Option<Vec<u8>>)
        ensures
            out is Some <==> read_in_bounds(self@.len(), offset as nat, len as nat),
            out matches Some(v) ==> v@ == read_result(self@, offset as int, len as int),
    {
        let n = self.data.len();
        if offset <= usize::MAX - len && offset + len <= n {
            Some(self.read(offset, len))
        } else {
            None
        }
    }

    /// The byte size of the buffer's data.
    pub fn size(&self) -> (n: usize)
        ensures
            n == self@.len(),
    {
        self.data.len()
    }

    /// Releases the buffer's native id; the id leaves the live table of
    /// its context exactly once.
    pub fn destroy(self, ctx: &mut RenderingContext)
        requires
            old(ctx).wf(),
            self.context_tag() == old(ctx).context_tag(),
            old(ctx).is_live(self.handle_id()),
        ensures
            final(ctx).wf(),
            final(ctx).context_tag() == old(ctx).context_tag(),
            final(ctx).next_handle() == old(ctx).next_handle(),
            final(ctx).live_ids().len() == old(ctx).live_ids().len() - 1,
            !final(ctx).is_live(self.handle_id()),
            forall|other: u32|
                other != self.handle_id() ==> final(ctx).is_live(other) == old(ctx).is_live(
                    other,
                ),
    {
        ctx.release_handle(self.handle);
    }
}

impl GLHandle for Buffer {
    open spec fn handle_spec(&self) -> u32 {
        self.handle_id()
    }

    fn gl_handle(&self) -> (h: u32) {
        self.handle
    }
}

} // verus!
