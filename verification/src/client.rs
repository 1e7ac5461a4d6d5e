//! Client layer: request stamping, the generation counter, and the
//! coalescing of `SEEN` notifications and sequential writes.
//!
//! The client keeps at most one pending `SEEN` latch and one pending run of
//! contiguous writes. Both are flushed, `SEEN` first, before any other
//! request frame leaves the client.

use vstd::prelude::*;
use vstd::arithmetic::div_mod::lemma_add_mod_noop;
use crate::wire::{Frame, Request, TagKind, frames_of, spec_classify_tag, TAG_FLSH};
use crate::FileId;
use crate::BUF_SIZE;
use crate::cpu::{cpu_elapsed_ms, cpu_now};

verus! {

/// The wire-layer state: the CPU-time anchor for request stamps, the
/// milliseconds carried over from earlier lifetimes of forked descendants,
/// and the generation counter bumped whenever the supervisor signals that
/// cached reads may be stale.
pub struct ClientIO {
    pub start_time: cpu_time::ProcessTime,
    pub delta_ms: u64,
    pub generation: usize,
}

/// The stamp carried after a request tag: accumulated milliseconds plus the
/// elapsed reading, truncated to 32 bits.
pub open spec fn stamp_of(delta: u64, elapsed: u64) -> u32 {
    ((delta + elapsed) % 0x1_0000_0000) as u32
}

/// The milliseconds a forked child adopts as its accumulated delta: the
/// parent's delta plus the elapsed reading at the fork, saturating.
pub open spec fn spec_delta_carry(delta: u64, elapsed: u64) -> u64 {
    if delta + elapsed <= u64::MAX {
        (delta + elapsed) as u64
    } else {
        u64::MAX
    }
}

/// Computes the stamp for a given accumulated delta and elapsed reading:
/// their sum truncated to 32 bits.
pub fn stamp_from(delta_ms: u64, elapsed_ms: u64) -> (r: u32)
    ensures
        r == stamp_of(delta_ms, elapsed_ms),
{
    let total: u64 = (delta_ms % 0x1_0000_0000) + (elapsed_ms % 0x1_0000_0000);
    let r = (total % 0x1_0000_0000) as u32;
    proof {
        lemma_add_mod_noop(delta_ms as int, elapsed_ms as int, 0x1_0000_0000);
    }
    r
}

/// Computes the delta a forked child carries over: the sum of the
/// accumulated delta and the elapsed reading, saturating.
pub fn delta_carry(delta_ms: u64, elapsed_ms: u64) -> (r: u64)
    ensures
        r == spec_delta_carry(delta_ms, elapsed_ms),
        r >= delta_ms,
{
    if elapsed_ms <= u64::MAX - delta_ms {
        delta_ms + elapsed_ms
    } else {
        u64::MAX
    }
}

/// Stamps from one anchor are non-decreasing while the truncated sum does
/// not wrap: a later elapsed reading gives a stamp at least as large.
pub proof fn lemma_stamp_monotone(delta: u64, e1: u64, e2: u64)
    requires
        e1 <= e2,
        delta + e2 < 0x1_0000_0000,
    ensures
        stamp_of(delta, e1) <= stamp_of(delta, e2),
{
}

/// Across a fork, the child inherits the carry `delta + elapsed-at-fork` as
/// its new accumulated time. Its first stamp is then at least any stamp the
/// parent issued before the fork, as long as the truncated sum does not
/// wrap.
pub proof fn lemma_stamp_across_fork(delta: u64, e_parent: u64, e_fork: u64, e_child: u64)
    requires
        e_parent <= e_fork,
        delta + e_fork + e_child < 0x1_0000_0000,
    ensures
        stamp_of(delta, e_parent) <= stamp_of(spec_delta_carry(delta, e_fork), e_child),
{
}

impl ClientIO {
    /// A fresh wire-layer state anchored at the current CPU time.
    pub fn new() -> (r: ClientIO)
        ensures
            r.delta_ms == 0,
            r.generation == 0,
    {
        ClientIO { start_time: cpu_now(), delta_ms: 0, generation: 0 }
    }

    /// The stamp to carry on the next request: accumulated milliseconds plus
    /// the current elapsed reading, truncated to 32 bits. The reading itself
    /// depends on the clock; the truncated sum is computed by `stamp_from`,
    /// whose contract is exact in both arguments.
    pub fn stamp(&self) -> (r: u32)
        ensures
            exists|e: u64| r == stamp_of(self.delta_ms, e),
    {
        let e = cpu_elapsed_ms(&self.start_time);
        let r = stamp_from(self.delta_ms, e);
        proof {
            assert(r == stamp_of(self.delta_ms, e));
        }
        r
    }

    /// Adopts a carried delta and re-anchors the clock; the child branch of
    /// a fork calls this with the carry its parent computed before forking,
    /// so that the child's stamps continue from the parent's accumulated
    /// time without consulting the pre-fork anchor.
    pub fn rebase(&mut self, carry_ms: u64)
        ensures
            final(self).generation == old(self).generation,
            final(self).delta_ms == carry_ms,
    {
        self.delta_ms = carry_ms;
        self.start_time = cpu_now();
    }
}

/// The client: wire-layer state plus the `SEEN` latch and the
/// write-coalescing buffer.
pub struct Client {
    pub io: ClientIO,
    /// The file of the pending `SEEN` latch; `-1` when none was ever set.
    pub seen: FileId,
    /// The high-water mark of the pending `SEEN`; `0` means no pending `SEEN`.
    pub seen_pos: u32,
    /// The file of the pending write run; `-1` when none.
    pub write: FileId,
    /// The absolute position of the first pending byte.
    pub write_pos: u32,
    /// The pending contiguous bytes, at most `BUF_SIZE` of them.
    pub write_buf: Vec<u8>,
}

impl Client {
    /// Well-formedness: the buffer respects its capacity and pending bytes
    /// lie within the 32-bit position space.
    pub open spec fn wf(&self) -> bool {
        &&& self.write_buf@.len() <= BUF_SIZE
        &&& (self.write_buf@.len() > 0 ==> self.write_pos + self.write_buf@.len() <= u32::MAX)
    }

    /// The pending `SEEN` frame, if any.
    pub open spec fn seen_pending(&self) -> Seq<Frame> {
        if self.seen_pos != 0 {
            seq![Frame::Seen { file: self.seen, pos: self.seen_pos }]
        } else {
            Seq::empty()
        }
    }

    /// The pending `WRIT` frame, if any.
    pub open spec fn write_pending(&self) -> Seq<Frame> {
        if self.write_buf@.len() != 0 {
            seq![Frame::Writ { file: self.write, pos: self.write_pos, data: self.write_buf@ }]
        } else {
            Seq::empty()
        }
    }

    /// What a flush would put on the wire: the pending `SEEN`, then the
    /// pending `WRIT`.
    pub open spec fn pending(&self) -> Seq<Frame> {
        self.seen_pending() + self.write_pending()
    }

    /// No pending `SEEN` and no pending write bytes.
    pub open spec fn pending_empty(&self) -> bool {
        self.seen_pos == 0 && self.write_buf@.len() == 0
    }

    /// An incoming write extends the pending run: either nothing is pending,
    /// or it targets the same file right after the pending bytes.
    pub open spec fn write_coalesces(&self, file: FileId, pos: u32) -> bool {
        self.write_buf@.len() == 0 || (self.write == file && self.write_pos
            + self.write_buf@.len() == pos)
    }

    /// The bytes carried over into the write run that an incoming write
    /// joins: the pending bytes when it extends them, nothing otherwise.
    pub open spec fn write_carry(&self, file: FileId, pos: u32) -> Seq<u8> {
        if self.write_buf@.len() > 0 && self.write_coalesces(file, pos) {
            self.write_buf@
        } else {
            Seq::empty()
        }
    }

    /// The position at which the joined write run starts.
    pub open spec fn write_base_pos(&self, file: FileId, pos: u32) -> u32 {
        if self.write_buf@.len() > 0 && self.write_coalesces(file, pos) {
            self.write_pos
        } else {
            pos
        }
    }

    /// The state a flush leaves behind: both buffers empty, the wire-layer
    /// state untouched, and the latches reset exactly where something was
    /// pending.
    pub open spec fn flushed_state(pre: Client, post: Client) -> bool {
        &&& post.pending_empty()
        &&& post.io == pre.io
        &&& post.write_pos == pre.write_pos
        &&& post.seen_pos == 0
        &&& post.write_buf@.len() == 0
        &&& post.seen == (if pre.seen_pos != 0 {
            -1i32
        } else {
            pre.seen
        })
        &&& post.write == (if pre.write_buf@.len() != 0 {
            -1i32
        } else {
            pre.write
        })
    }

    /// The full effect of a flush: the pending frames, `SEEN` first, go out
    /// and the buffers are left empty.
    pub open spec fn flush_effect(pre: Client, post: Client, out: Seq<Frame>) -> bool {
        &&& out == pre.pending()
        &&& Client::flushed_state(pre, post)
    }

    /// The full effect of any non-write, non-`SEEN` request: the pending
    /// frames go out first, then the request frame itself, and the buffers
    /// are left empty.
    pub open spec fn request_effect(pre: Client, post: Client, f: Frame, out: Seq<Frame>) -> bool {
        &&& out == pre.pending() + seq![f]
        &&& Client::flushed_state(pre, post)
    }

    /// The full effect of recording a `SEEN` mark: a mark for the latched
    /// file keeps the maximum position and emits nothing; a mark for a new
    /// file flushes the pending frames and restarts the latch.
    pub open spec fn seen_effect(
        pre: Client,
        post: Client,
        file: FileId,
        pos: u32,
        out: Seq<Frame>,
    ) -> bool {
        if pre.seen == file {
            &&& out == Seq::<Frame>::empty()
            &&& post.seen == file
            &&& post.seen_pos == (if pre.seen_pos < pos {
                pos
            } else {
                pre.seen_pos
            })
            &&& post.io == pre.io
            &&& post.write == pre.write
            &&& post.write_pos == pre.write_pos
            &&& post.write_buf == pre.write_buf
        } else {
            &&& out == pre.pending()
            &&& post.seen == file
            &&& post.seen_pos == pos
            &&& post.io == pre.io
            &&& post.write_pos == pre.write_pos
            &&& post.write_buf@.len() == 0
            &&& post.write == (if pre.write_buf@.len() != 0 {
                -1i32
            } else {
                pre.write
            })
        }
    }

    /// The full effect of recording a write: the coalescing rule of
    /// `Client::write`, relating the state before and after the call to the
    /// frames it emits.
    pub open spec fn write_effect(
        pre: Client,
        post: Client,
        file: FileId,
        pos: u32,
        data: Seq<u8>,
        out: Seq<Frame>,
    ) -> bool {
        &&& post.io == pre.io
        &&& post.write == file
        &&& post.write_pos == pre.write_base_pos(file, pos)
        &&& out == (if !pre.write_coalesces(file, pos) {
            pre.pending()
        } else {
            Seq::<Frame>::empty()
        }) + (if pre.write_carry(file, pos).len() + data.len() <= BUF_SIZE {
            Seq::<Frame>::empty()
        } else {
            seq![
                Frame::Writ {
                    file,
                    pos: pre.write_base_pos(file, pos),
                    data: pre.write_carry(file, pos) + data,
                },
            ]
        })
        &&& post.write_buf@ == (if pre.write_carry(file, pos).len() + data.len() <= BUF_SIZE {
            pre.write_carry(file, pos) + data
        } else {
            Seq::<u8>::empty()
        })
        &&& post.seen_pos == (if !pre.write_coalesces(file, pos) {
            0u32
        } else {
            pre.seen_pos
        })
        &&& post.seen == (if !pre.write_coalesces(file, pos) && pre.seen_pos != 0 {
            -1i32
        } else {
            pre.seen
        })
    }

    /// A fresh client around the given wire-layer state, with empty latch
    /// and buffer.
    pub fn new(io: ClientIO) -> (c: Client)
        ensures
            c.io == io,
            c.seen == -1i32,
            c.write == -1i32,
            c.write_pos == 0,
            c.pending_empty(),
            c.wf(),
    {
        Client { io, seen: -1, seen_pos: 0, write: -1, write_pos: 0, write_buf: Vec::new() }
    }

    /// Whether nothing is pending, so that a fork or a control exchange may
    /// proceed at once.
    pub fn pending_is_empty(&self) -> (r: bool)
        ensures
            r == self.pending_empty(),
    {
        self.seen_pos == 0 && self.write_buf.len() == 0
    }

    /// The generation observed by readers.
    pub fn generation(&self) -> (g: usize)
        ensures
            g == self.io.generation,
    {
        self.io.generation
    }

    /// Invalidates all cached read positions from the client's own side.
    pub fn bump_generation(&mut self)
        requires
            old(self).io.generation < usize::MAX,
        ensures
            final(self).io.generation == old(self).io.generation + 1,
            final(self).io.delta_ms == old(self).io.delta_ms,
            final(self).io.start_time == old(self).io.start_time,
            final(self).seen == old(self).seen,
            final(self).seen_pos == old(self).seen_pos,
            final(self).write == old(self).write,
            final(self).write_pos == old(self).write_pos,
            final(self).write_buf == old(self).write_buf,
    {
        self.io.generation = self.io.generation + 1;
    }

    /// Absorbs one reply-slot tag. A `FLSH` control tag bumps the generation
    /// and asks the caller to read the next tag; any other tag is classified
    /// and handed back.
    pub fn recv_tag_step(&mut self, tag: u32) -> (r: Option<TagKind>)
        requires
            old(self).io.generation < usize::MAX,
        ensures
            tag == TAG_FLSH ==> r is None && final(self).io.generation == old(self).io.generation
                + 1,
            tag != TAG_FLSH ==> r == Some(spec_classify_tag(tag)) && final(self).io.generation
                == old(self).io.generation,
            final(self).io.delta_ms == old(self).io.delta_ms,
            final(self).io.start_time == old(self).io.start_time,
            final(self).seen == old(self).seen,
            final(self).seen_pos == old(self).seen_pos,
            final(self).write == old(self).write,
            final(self).write_pos == old(self).write_pos,
            final(self).write_buf == old(self).write_buf,
    {
        if tag == TAG_FLSH {
            self.io.generation = self.io.generation + 1;
            None
        } else {
            Some(crate::wire::classify_tag(tag))
        }
    }

    /// Emits the pending `SEEN`, then the pending `WRIT`, and clears both.
    pub fn flush_pending(&mut self) -> (out: Vec<Request>)
        requires
            old(self).wf(),
        ensures
            final(self).wf(),
            Client::flush_effect(*old(self), *final(self), frames_of(out@)),
    {
        let mut out: Vec<Request> = Vec::new();
        if self.seen_pos != 0 {
            out.push(Request::Seen { file: self.seen, pos: self.seen_pos });
            self.seen_pos = 0;
            self.seen = -1;
        }
        if self.write_buf.len() != 0 {
            let mut data: Vec<u8> = Vec::new();
            std::mem::swap(&mut data, &mut self.write_buf);
            out.push(Request::Writ { file: self.write, pos: self.write_pos, data });
            self.write = -1;
        }
        assert(frames_of(out@) =~= old(self).pending());
        out
    }

    /// Same as `flush_pending`; the caller must also flush the channel
    /// itself after sending the returned frames.
    pub fn flush(&mut self) -> (out: Vec<Request>)
        requires
            old(self).wf(),
        ensures
            final(self).wf(),
            Client::flush_effect(*old(self), *final(self), frames_of(out@)),
    {
        self.flush_pending()
    }

    /// Records a write. Contiguous writes to one file are coalesced into the
    /// pending run; a write to another file or position flushes first; a run
    /// that would exceed the buffer capacity is emitted as one `WRIT` frame
    /// carrying the pending bytes followed by the incoming ones.
    pub fn write(&mut self, file: FileId, pos: u32, buf: &[u8]) -> (out: Vec<Request>)
        requires
            old(self).wf(),
            pos + buf@.len() <= u32::MAX,
        ensures
            final(self).wf(),
            Client::write_effect(*old(self), *final(self), file, pos, buf@, frames_of(out@)),
    {
        let ghost pre = *old(self);
        let mut out: Vec<Request> = Vec::new();
        if self.write_buf.len() > 0 {
            let run_end = self.write_pos + (self.write_buf.len() as u32);
            if self.write != file || run_end != pos {
                out = self.flush_pending();
                self.write = file;
                self.write_pos = pos;
            }
        } else {
            self.write = file;
            self.write_pos = pos;
        }
        assert(self.write_buf@ == pre.write_carry(file, pos));
        assert(self.write_pos == pre.write_base_pos(file, pos));
        if self.write_buf.len() + buf.len() <= BUF_SIZE {
            let mut i: usize = 0;
            let ghost entry = *self;
            while i < buf.len()
                invariant
                    0 <= i <= buf@.len(),
                    self.write_buf@ == entry.write_buf@ + buf@.subrange(0, i as int),
                    entry.write_buf@.len() + buf@.len() <= BUF_SIZE,
                    self.io == entry.io,
                    self.seen == entry.seen,
                    self.seen_pos == entry.seen_pos,
                    self.write == entry.write,
                    self.write_pos == entry.write_pos,
                decreases buf@.len() - i,
            {
                self.write_buf.push(buf[i]);
                i = i + 1;
                assert(self.write_buf@ =~= entry.write_buf@ + buf@.subrange(0, i as int));
            }
            assert(self.write_buf@ =~= entry.write_buf@ + buf@);
        } else {
            let mut data: Vec<u8> = Vec::new();
            std::mem::swap(&mut data, &mut self.write_buf);
            let ghost carried = data@;
            let mut i: usize = 0;
            while i < buf.len()
                invariant
                    0 <= i <= buf@.len(),
                    data@ == carried + buf@.subrange(0, i as int),
                decreases buf@.len() - i,
            {
                data.push(buf[i]);
                i = i + 1;
                assert(data@ =~= carried + buf@.subrange(0, i as int));
            }
            assert(data@ =~= carried + buf@);
            out.push(Request::Writ { file, pos: self.write_pos, data });
        }
        assert(frames_of(out@) =~= (if !pre.write_coalesces(file, pos) {
            pre.pending()
        } else {
            Seq::<Frame>::empty()
        }) + (if pre.write_carry(file, pos).len() + buf@.len() <= BUF_SIZE {
            Seq::<Frame>::empty()
        } else {
            seq![
                Frame::Writ {
                    file,
                    pos: pre.write_base_pos(file, pos),
                    data: pre.write_carry(file, pos) + buf@,
                },
            ]
        }));
        out
    }

    /// Records a `SEEN` high-water mark. A mark for a new file flushes the
    /// pending frames first; marks for the latched file only keep the
    /// maximum position.
    pub fn seen(&mut self, file: FileId, pos: u32) -> (out: Vec<Request>)
        requires
            old(self).wf(),
        ensures
            final(self).wf(),
            Client::seen_effect(*old(self), *final(self), file, pos, frames_of(out@)),
    {
        let mut out: Vec<Request> = Vec::new();
        if self.seen != file {
            out = self.flush_pending();
            self.seen = file;
        }
        if self.seen_pos < pos {
            self.seen_pos = pos;
        }
        proof {
            if old(self).seen == file {
                assert(frames_of(out@) =~= Seq::<Frame>::empty());
            }
        }
        out
    }

    /// Flushes pending frames and issues an `OPEN` request.
    pub fn open(&mut self, file: FileId, path: &str, mode: &str) -> (out: Vec<Request>)
        requires
            old(self).wf(),
        ensures
            final(self).wf(),
            Client::request_effect(
                *old(self),
                *final(self),
                Frame::Open { file, path: path@, mode: mode@ },
                frames_of(out@),
            ),
    {
        let mut out = self.flush_pending();
        let ghost flushed = out@;
        out.push(Request::Open { file, path: path.to_owned(), mode: mode.to_owned() });
        assert(frames_of(out@) =~= frames_of(flushed) + seq![
            Frame::Open { file, path: path@, mode: mode@ },
        ]);
        out
    }

    /// Flushes pending frames and issues a `READ` request for up to `max`
    /// bytes at `pos`.
    pub fn read(&mut self, file: FileId, pos: u32, max: u32) -> (out: Vec<Request>)
        requires
            old(self).wf(),
        ensures
            final(self).wf(),
            Client::request_effect(
                *old(self),
                *final(self),
                Frame::Read { file, pos, max },
                frames_of(out@),
            ),
    {
        let mut out = self.flush_pending();
        let ghost flushed = out@;
        out.push(Request::Read { file, pos, max });
        assert(frames_of(out@) =~= frames_of(flushed) + seq![Frame::Read { file, pos, max }]);
        out
    }

    /// Flushes pending frames and issues a `CLOS` request.
    pub fn close(&mut self, file: FileId) -> (out: Vec<Request>)
        requires
            old(self).wf(),
        ensures
            final(self).wf(),
            Client::request_effect(
                *old(self),
                *final(self),
                Frame::Clos { file },
                frames_of(out@),
            ),
    {
        let mut out = self.flush_pending();
        let ghost flushed = out@;
        out.push(Request::Clos { file });
        assert(frames_of(out@) =~= frames_of(flushed) + seq![Frame::Clos { file }]);
        out
    }

    /// Flushes pending frames and issues a `SIZE` request.
    pub fn size(&mut self, file: FileId) -> (out: Vec<Request>)
        requires
            old(self).wf(),
        ensures
            final(self).wf(),
            Client::request_effect(
                *old(self),
                *final(self),
                Frame::Size { file },
                frames_of(out@),
            ),
    {
        let mut out = self.flush_pending();
        let ghost flushed = out@;
        out.push(Request::Size { file });
        assert(frames_of(out@) =~= frames_of(flushed) + seq![Frame::Size { file }]);
        out
    }

    /// Flushes pending frames and issues an `ACCS` query for the given path
    /// and access-mode bitmask.
    pub fn accs(&mut self, path: &str, mode: u32) -> (out: Vec<Request>)
        requires
            old(self).wf(),
        ensures
            final(self).wf(),
            Client::request_effect(
                *old(self),
                *final(self),
                Frame::Accs { path: path@, mode },
                frames_of(out@),
            ),
    {
        let mut out = self.flush_pending();
        let ghost flushed = out@;
        out.push(Request::Accs { path: path.to_owned(), mode });
        assert(frames_of(out@) =~= frames_of(flushed) + seq![Frame::Accs { path: path@, mode }]);
        out
    }

    /// Flushes pending frames and issues a `STAT` query.
    pub fn stat(&mut self, path: &str) -> (out: Vec<Request>)
        requires
            old(self).wf(),
        ensures
            final(self).wf(),
            Client::request_effect(
                *old(self),
                *final(self),
                Frame::Stat { path: path@ },
                frames_of(out@),
            ),
    {
        let mut out = self.flush_pending();
        let ghost flushed = out@;
        out.push(Request::Stat { path: path.to_owned() });
        assert(frames_of(out@) =~= frames_of(flushed) + seq![Frame::Stat { path: path@ }]);
        out
    }

    /// Flushes pending frames and issues a `GPIC` picture-bounds lookup.
    pub fn gpic(&mut self, path: &str, typ: i32, page: i32) -> (out: Vec<Request>)
        requires
            old(self).wf(),
        ensures
            final(self).wf(),
            Client::request_effect(
                *old(self),
                *final(self),
                Frame::Gpic { path: path@, typ, page },
                frames_of(out@),
            ),
    {
        let mut out = self.flush_pending();
        let ghost flushed = out@;
        out.push(Request::Gpic { path: path.to_owned(), typ, page });
        assert(frames_of(out@) =~= frames_of(flushed) + seq![
            Frame::Gpic { path: path@, typ, page },
        ]);
        out
    }

    /// Flushes pending frames and issues an `SPIC` picture-bounds store. The
    /// bounds are the raw bit patterns of the four 32-bit fields.
    pub fn spic(&mut self, path: &str, typ: i32, page: i32, bounds: &[u32; 4]) -> (out: Vec<
        Request,
    >)
        requires
            old(self).wf(),
        ensures
            final(self).wf(),
            Client::request_effect(
                *old(self),
                *final(self),
                Frame::Spic { path: path@, typ, page, bounds: bounds@ },
                frames_of(out@),
            ),
    {
        let mut out = self.flush_pending();
        let ghost flushed = out@;
        out.push(Request::Spic { path: path.to_owned(), typ, page, bounds: *bounds });
        assert(frames_of(out@) =~= frames_of(flushed) + seq![
            Frame::Spic { path: path@, typ, page, bounds: bounds@ },
        ]);
        out
    }

    /// First step of the speculative-fork protocol: flushes pending frames,
    /// bumps the generation, and computes the delta the child will carry —
    /// the parent's accumulated delta plus the elapsed reading taken before
    /// the fork. Both branches resume at a strictly greater generation with
    /// empty buffers; the parent's own anchor and delta are untouched.
    pub fn fork_prepare(&mut self) -> (r: (Vec<Request>, u64))
        requires
            old(self).wf(),
            old(self).io.generation < usize::MAX,
        ensures
            final(self).wf(),
            frames_of(r.0@) == old(self).pending(),
            final(self).pending_empty(),
            final(self).io.generation == old(self).io.generation + 1,
            final(self).io.generation > old(self).io.generation,
            final(self).io.delta_ms == old(self).io.delta_ms,
            final(self).io.start_time == old(self).io.start_time,
            exists|e: u64| r.1 == spec_delta_carry(old(self).io.delta_ms, e),
            r.1 >= old(self).io.delta_ms,
    {
        let out = self.flush_pending();
        self.io.generation = self.io.generation + 1;
        let e = cpu_elapsed_ms(&self.io.start_time);
        let carry = delta_carry(self.io.delta_ms, e);
        proof {
            assert(carry == spec_delta_carry(self.io.delta_ms, e));
        }
        (out, carry)
    }

    /// In the child branch of a fork: adopts the carried delta computed by
    /// `fork_prepare` and re-anchors the CPU clock, so that the child's
    /// stamps continue from the parent's accumulated time.
    pub fn fork_child_commit(&mut self, carry_ms: u64)
        ensures
            final(self).io.generation == old(self).io.generation,
            final(self).io.delta_ms == carry_ms,
            final(self).seen == old(self).seen,
            final(self).seen_pos == old(self).seen_pos,
            final(self).write == old(self).write,
            final(self).write_pos == old(self).write_pos,
            final(self).write_buf == old(self).write_buf,
    {
        self.io.rebase(carry_ms);
    }

    /// The `CHLD` control message the child sends after a fork. The buffers
    /// must already be empty.
    pub fn child(&mut self, pid: i32) -> (out: Vec<Request>)
        requires
            old(self).wf(),
            old(self).pending_empty(),
        ensures
            final(self).wf(),
            final(self).pending_empty(),
            final(self).io == old(self).io,
            frames_of(out@) == seq![Frame::Chld { pid }],
    {
        let mut out: Vec<Request> = Vec::new();
        out.push(Request::Chld { pid });
        assert(frames_of(out@) =~= seq![Frame::Chld { pid }]);
        out
    }

    /// The `BACK` control message the parent sends once the child exited.
    /// The buffers must already be empty.
    pub fn back(&mut self, ppid: i32, cpid: i32, exit: u32) -> (out: Vec<Request>)
        requires
            old(self).wf(),
            old(self).pending_empty(),
        ensures
            final(self).wf(),
            final(self).pending_empty(),
            final(self).io == old(self).io,
            frames_of(out@) == seq![Frame::Back { ppid, cpid, exit }],
    {
        let mut out: Vec<Request> = Vec::new();
        out.push(Request::Back { ppid, cpid, exit });
        assert(frames_of(out@) =~= seq![Frame::Back { ppid, cpid, exit }]);
        out
    }
}


/// A write that extends the pending run and fits the buffer emits nothing:
/// contiguous writes to one file are merged, and the concatenated bytes sit
/// in the buffer afterwards.
pub proof fn lemma_contiguous_write_coalesces(
    c0: Client,
    c1: Client,
    file: FileId,
    pos: u32,
    data: Seq<u8>,
    out: Seq<Frame>,
)
    requires
        Client::write_effect(c0, c1, file, pos, data, out),
        c0.write_coalesces(file, pos),
        c0.write_carry(file, pos).len() + data.len() <= BUF_SIZE,
    ensures
        out == Seq::<Frame>::empty(),
        c1.write_buf@ == c0.write_carry(file, pos) + data,
        c1.seen == c0.seen,
        c1.seen_pos == c0.seen_pos,
{
    assert(out =~= Seq::<Frame>::empty());
}

/// Opening a file for writing, writing twice at contiguous positions, and
/// closing it emits exactly one `OPEN`, one `WRIT` carrying the
/// concatenated bytes, and one `CLOS`, in that order, as long as the total
/// fits the coalescing buffer.
pub proof fn lemma_open_write_close(
    c0: Client,
    c1: Client,
    c2: Client,
    c3: Client,
    c4: Client,
    file: FileId,
    path: Seq<char>,
    mode: Seq<char>,
    p0: u32,
    b0: Seq<u8>,
    b1: Seq<u8>,
    out_open: Seq<Frame>,
    out_w1: Seq<Frame>,
    out_w2: Seq<Frame>,
    out_close: Seq<Frame>,
)
    requires
        c0.pending_empty(),
        Client::request_effect(c0, c1, Frame::Open { file, path, mode }, out_open),
        Client::write_effect(c1, c2, file, p0, b0, out_w1),
        p0 + b0.len() + b1.len() <= u32::MAX,
        Client::write_effect(c2, c3, file, (p0 + b0.len()) as u32, b1, out_w2),
        0 < b0.len() + b1.len() <= BUF_SIZE,
        Client::request_effect(c3, c4, Frame::Clos { file }, out_close),
    ensures
        out_open == seq![Frame::Open { file, path, mode }],
        out_w1 == Seq::<Frame>::empty(),
        out_w2 == Seq::<Frame>::empty(),
        out_close == seq![
            Frame::Writ { file, pos: p0, data: b0 + b1 },
            Frame::Clos { file },
        ],
        c4.pending_empty(),
{
    assert(c0.pending() =~= Seq::<Frame>::empty());
    assert(out_open =~= seq![Frame::Open { file, path, mode }]);
    assert(c1.pending_empty());
    assert(c1.write_coalesces(file, p0));
    assert(c1.write_carry(file, p0) =~= Seq::<u8>::empty());
    assert(c1.write_carry(file, p0) + b0 =~= b0);
    assert(out_w1 =~= Seq::<Frame>::empty());
    assert(c2.write_buf@ == b0);
    if b0.len() > 0 {
        assert(c2.write_pos == p0);
        assert(c2.write_coalesces(file, (p0 + b0.len()) as u32));
        assert(c2.write_carry(file, (p0 + b0.len()) as u32) == b0);
    } else {
        assert(c2.write_coalesces(file, (p0 + b0.len()) as u32));
        assert(c2.write_carry(file, (p0 + b0.len()) as u32) =~= b0);
    }
    assert(out_w2 =~= Seq::<Frame>::empty());
    assert(c3.write_buf@ == b0 + b1);
    assert(c3.write_pos == p0);
    assert(c3.seen_pos == 0);
    assert(c3.pending() =~= seq![Frame::Writ { file, pos: p0, data: b0 + b1 }]);
    assert(out_close =~= seq![
        Frame::Writ { file, pos: p0, data: b0 + b1 },
        Frame::Clos { file },
    ]);
}

/// Two `SEEN` marks for one file keep only the high-water mark: with
/// `p1 < p2`, flushing afterwards emits a single `SEEN` at `p2`.
pub proof fn lemma_seen_coalesces(
    c0: Client,
    c1: Client,
    c2: Client,
    c3: Client,
    f: FileId,
    p1: u32,
    p2: u32,
    out1: Seq<Frame>,
    out2: Seq<Frame>,
    out3: Seq<Frame>,
)
    requires
        c0.pending_empty(),
        p1 < p2,
        Client::seen_effect(c0, c1, f, p1, out1),
        Client::seen_effect(c1, c2, f, p2, out2),
        Client::flush_effect(c2, c3, out3),
    ensures
        out1 == Seq::<Frame>::empty(),
        out2 == Seq::<Frame>::empty(),
        out3 == seq![Frame::Seen { file: f, pos: p2 }],
        c3.pending_empty(),
{
    assert(c0.pending() =~= Seq::<Frame>::empty());
    assert(out1 =~= Seq::<Frame>::empty());
    assert(c1.seen == f);
    assert(c1.seen_pos == p1);
    assert(c1.write_buf@.len() == 0);
    assert(out2 =~= Seq::<Frame>::empty());
    assert(c2.seen_pos == p2);
    assert(c2.write_buf@.len() == 0);
    assert(c2.pending() =~= seq![Frame::Seen { file: f, pos: p2 }]);
}

} // verus!
