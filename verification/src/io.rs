//! IO provider layer: named-file opens over the wire, per-open reader and
//! writer state, the file-id allocator, and the latch for the last name the
//! supervisor declined.

use vstd::prelude::*;
use vstd::string::StrSliceExecFns;
use crate::client::Client;
use crate::wire::{Frame, Request, frames_of};
use crate::{str_eq, FileId};

verus! {

/// The capacity of a reader's local buffer.
pub const READ_BUF_SIZE: usize = 1024;

/// The provider state: the client, the file-id free list and rising
/// counter, and the last name the supervisor declined to open.
pub struct TexpressoIOState {
    pub client: Client,
    pub released: Vec<FileId>,
    pub next_id: FileId,
    pub last_passed_open: String,
}

/// The provider handle handed to the engine: the shared state plus the name
/// of the designated primary input.
pub struct TexpressoIO {
    pub state: TexpressoIOState,
    pub primary: String,
}

/// How an open starts: either it is answered locally without a wire round
/// trip, or the returned requests must be sent and the answer fed back.
pub enum InputOpenStart {
    NotAvailable,
    Query { id: FileId, requests: Vec<Request> },
}

/// A started output open: the allocated file id and the requests to send.
pub struct OutputOpenStart {
    pub id: FileId,
    pub requests: Vec<Request>,
}

impl TexpressoIOState {
    /// Well-formedness of the file-id allocator: the counter never exceeds
    /// 1024 and the free list holds distinct ids below the counter.
    pub open spec fn ids_wf(&self) -> bool {
        &&& 0 <= self.next_id <= 1024
        &&& forall|i: int|
            0 <= i < self.released@.len() ==> 0 <= #[trigger] self.released@[i] < self.next_id
        &&& forall|i: int, j: int|
            0 <= i < j < self.released@.len() ==> self.released@[i] != self.released@[j]
    }

    pub open spec fn wf(&self) -> bool {
        &&& self.client.wf()
        &&& self.ids_wf()
    }

    /// An id the allocator may hand out: on the free list, or not yet
    /// reached by the counter.
    pub open spec fn id_free(&self, id: FileId) -> bool {
        self.released@.contains(id) || self.next_id <= id
    }

    /// An id currently held by an open file.
    pub open spec fn id_live(&self, id: FileId) -> bool {
        0 <= id < self.next_id && !self.released@.contains(id)
    }

    /// A fresh provider state around the given client.
    pub fn new(client: Client) -> (s: TexpressoIOState)
        ensures
            s.client == client,
            s.released@.len() == 0,
            s.next_id == 0,
            s.last_passed_open@ == Seq::<char>::empty(),
            client.wf() ==> s.wf(),
    {
        TexpressoIOState {
            client,
            released: Vec::new(),
            next_id: 0,
            last_passed_open: String::new(),
        }
    }

    /// Whether another file id can be allocated. More than 1024 concurrent
    /// opens exhaust the id space, which is fatal.
    pub fn can_alloc(&self) -> (r: bool)
        ensures
            r <==> (self.released@.len() > 0 || self.next_id < 1024),
    {
        self.released.len() > 0 || self.next_id < 1024
    }

    /// Takes a free file id: the most recently released one, or the next
    /// value of the rising counter. Ids never exceed 1023; exhaustion is
    /// fatal and must be ruled out by the caller.
    pub fn alloc_id(&mut self) -> (id: FileId)
        requires
            old(self).wf(),
            old(self).released@.len() > 0 || old(self).next_id < 1024,
        ensures
            final(self).wf(),
            0 <= id < 1024,
            old(self).id_free(id),
            final(self).id_live(id),
            forall|x: FileId| x != id ==> (final(self).id_live(x) <==> old(self).id_live(x)),
            old(self).released@.len() > 0 ==> id == old(self).released@.last() && final(self).released@ == old(self).released@.drop_last() && final(self).next_id == old(self).next_id,
            old(self).released@.len() == 0 ==> id == old(self).next_id && final(self).next_id
                == old(self).next_id + 1 && final(self).released@ == old(self).released@,
            final(self).client == old(self).client,
            final(self).last_passed_open == old(self).last_passed_open,
    {
        match self.released.pop() {
            Some(id) => {
                assert(old(self).released@.contains(id));
                assert(!self.released@.contains(id)) by {
                    if self.released@.contains(id) {
                        let i = choose|i: int|
                            0 <= i < self.released@.len() && self.released@[i] == id;
                        assert(old(self).released@[i] == id);
                        assert(old(self).released@[old(self).released@.len() - 1] == id);
                    }
                }
                assert(forall|x: FileId|
                    x != id ==> (self.released@.contains(x) <==> old(self).released@.contains(
                        x,
                    ))) by {
                    assert(forall|i: int|
                        0 <= i < self.released@.len() ==> self.released@[i] == old(self).released@[i]);
                    assert(forall|x: FileId|
                        old(self).released@.contains(x) && x != id ==> {
                            let i = choose|i: int|
                                0 <= i < old(self).released@.len() && old(self).released@[i] == x;
                            0 <= i < self.released@.len() && self.released@[i] == x
                        });
                }
                id
            },
            None => {
                let id = self.next_id;
                self.next_id = id + 1;
                id
            },
        }
    }

    /// Returns a file id to the free list once its file is closed.
    pub fn release_id(&mut self, id: FileId)
        requires
            old(self).wf(),
            old(self).id_live(id),
        ensures
            final(self).wf(),
            final(self).id_free(id),
            forall|x: FileId| x != id ==> (final(self).id_live(x) <==> old(self).id_live(x)),
            final(self).client == old(self).client,
            final(self).next_id == old(self).next_id,
            final(self).last_passed_open == old(self).last_passed_open,
    {
        self.released.push(id);
        assert(self.released@.contains(id)) by {
            assert(self.released@[self.released@.len() - 1] == id);
        }
        assert(forall|x: FileId|
            x != id && old(self).released@.contains(x) ==> self.released@.contains(x)) by {
            assert(forall|x: FileId|
                old(self).released@.contains(x) ==> {
                    let i = choose|i: int|
                        0 <= i < old(self).released@.len() && old(self).released@[i] == x;
                    self.released@[i] == x
                });
        }
        assert(forall|x: FileId|
            x != id && self.released@.contains(x) ==> old(self).released@.contains(x)) by {
            assert(forall|x: FileId|
                self.released@.contains(x) && x != id ==> {
                    let i = choose|i: int|
                        0 <= i < self.released@.len() && self.released@[i] == x;
                    0 <= i < old(self).released@.len() && old(self).released@[i] == x
                });
        }
    }

    /// Whether an input open of this name would be answered from the latch,
    /// without a wire round trip or an id allocation.
    pub fn is_latched(&self, name: &str) -> (r: bool)
        ensures
            r <==> name@ == self.last_passed_open@,
    {
        str_eq(name, self.last_passed_open.as_str())
    }

    /// Begins an input open in mode `r?`. A name the supervisor declined
    /// last time is answered `NotAvailable` without a wire round trip and
    /// without allocating; otherwise a file id is allocated and an `OPEN`
    /// request is returned, so the allocator must then have room.
    pub fn input_open_name(&mut self, name: &str) -> (r: InputOpenStart)
        requires
            old(self).wf(),
            name@ != old(self).last_passed_open@ ==> old(self).released@.len() > 0 || old(self).next_id < 1024,
        ensures
            final(self).wf(),
            name@ == old(self).last_passed_open@ ==> r is NotAvailable && *final(self) == *old(self),
            name@ != old(self).last_passed_open@ ==> (r matches InputOpenStart::Query {
                id,
                requests,
            } && old(self).id_free(id) && final(self).id_live(id) && 0 <= id < 1024 && frames_of(
                requests@,
            ) == old(self).client.pending() + seq![
                Frame::Open { file: id, path: name@, mode: "r?"@ },
            ] && final(self).client.pending_empty() && final(self).client.io == old(self).client.io && final(self).last_passed_open == old(self).last_passed_open && (
            forall|x: FileId|
                x != id ==> (final(self).id_live(x) <==> old(self).id_live(x)))),
    {
        if str_eq(name, self.last_passed_open.as_str()) {
            return InputOpenStart::NotAvailable;
        }
        let id = self.alloc_id();
        let requests = self.client.open(id, name, "r?");
        InputOpenStart::Query { id, requests }
    }

    /// Completes an input open once the supervisor answered. On `PASS` the
    /// declined name is latched and the id is released; otherwise a fresh
    /// reader is returned and the latch is cleared.
    pub fn input_open_finish(&mut self, name: &str, id: FileId, passed: bool) -> (r: Option<
        TexpressoReader,
    >)
        requires
            old(self).wf(),
            old(self).id_live(id),
        ensures
            final(self).wf(),
            final(self).client == old(self).client,
            passed ==> r is None && final(self).last_passed_open@ == name@ && final(self).id_free(
                id,
            ) && (forall|x: FileId| x != id ==> (final(self).id_live(x) <==> old(self).id_live(x))),
            !passed ==> (r matches Some(rd) && rd.id == id && rd.abs_pos == 0 && rd.buf@.len() == 0
                && rd.buf_pos == 0 && rd.size is None && rd.generation == old(self).client.io.generation && rd.wf() && final(self).last_passed_open@ == Seq::<
                char,
            >::empty() && final(self).released == old(self).released && final(self).next_id == old(self).next_id),
    {
        if passed {
            self.last_passed_open = name.to_owned();
            self.release_id(id);
            None
        } else {
            self.last_passed_open = String::new();
            let generation = self.client.generation();
            Some(
                TexpressoReader {
                    id,
                    abs_pos: 0,
                    buf: Vec::new(),
                    buf_pos: 0,
                    size: None,
                    generation,
                },
            )
        }
    }

    /// Begins an output open in mode `w`: allocates a file id and returns
    /// the `OPEN` request to send.
    pub fn output_open_name(&mut self, name: &str) -> (r: OutputOpenStart)
        requires
            old(self).wf(),
            old(self).released@.len() > 0 || old(self).next_id < 1024,
        ensures
            final(self).wf(),
            old(self).id_free(r.id),
            final(self).id_live(r.id),
            0 <= r.id < 1024,
            frames_of(r.requests@) == old(self).client.pending() + seq![
                Frame::Open { file: r.id, path: name@, mode: "w"@ },
            ],
            final(self).client.pending_empty(),
            final(self).client.io == old(self).client.io,
            forall|x: FileId| x != r.id ==> (final(self).id_live(x) <==> old(self).id_live(x)),
    {
        let id = self.alloc_id();
        let requests = self.client.open(id, name, "w");
        OutputOpenStart { id, requests }
    }

    /// Completes an output open. On `PASS` the id is released; otherwise a
    /// fresh writer at position 0 is returned. Either way the latch for
    /// declined input names is cleared, as any successful exchange clears it.
    pub fn output_open_finish(&mut self, id: FileId, passed: bool) -> (r: Option<TexpressoWriter>)
        requires
            old(self).wf(),
            old(self).id_live(id),
        ensures
            final(self).wf(),
            final(self).client == old(self).client,
            final(self).last_passed_open@ == Seq::<char>::empty(),
            passed ==> r is None && final(self).id_free(id) && (forall|x: FileId|
                x != id ==> (final(self).id_live(x) <==> old(self).id_live(x))),
            !passed ==> (r matches Some(w) && w.id == id && w.pos == 0 && final(self).released
                == old(self).released && final(self).next_id == old(self).next_id),
    {
        self.last_passed_open = String::new();
        if passed {
            self.release_id(id);
            None
        } else {
            Some(TexpressoWriter { id, pos: 0 })
        }
    }

    /// Releases a reader or writer: flushes anything pending, issues `CLOS`,
    /// and frees the file id.
    pub fn close_file(&mut self, id: FileId) -> (out: Vec<Request>)
        requires
            old(self).wf(),
            old(self).id_live(id),
        ensures
            final(self).wf(),
            frames_of(out@) == old(self).client.pending() + seq![Frame::Clos { file: id }],
            final(self).client.pending_empty(),
            final(self).client.io == old(self).client.io,
            final(self).id_free(id),
            forall|x: FileId| x != id ==> (final(self).id_live(x) <==> old(self).id_live(x)),
    {
        let out = self.client.close(id);
        self.release_id(id);
        out
    }
}

/// One open input: the file id, the absolute position of the local buffer,
/// the buffered bytes with their consumed prefix, the memoized size, and the
/// generation at which the buffer was filled.
pub struct TexpressoReader {
    pub id: FileId,
    pub abs_pos: usize,
    pub buf: Vec<u8>,
    pub buf_pos: usize,
    pub size: Option<usize>,
    pub generation: usize,
}

impl TexpressoReader {
    /// The buffer respects its capacity, its consumed prefix lies within it,
    /// and all buffered bytes lie within the 32-bit position space.
    pub open spec fn wf(&self) -> bool {
        &&& self.buf_pos <= self.buf@.len() <= READ_BUF_SIZE
        &&& self.abs_pos + self.buf@.len() <= u32::MAX
    }

    /// The logical byte offset delivered to the engine so far.
    pub open spec fn logical_pos(&self) -> int {
        self.abs_pos + self.buf_pos
    }

    /// The buffered bytes agree with the authoritative content at the
    /// buffer's absolute position.
    pub open spec fn buffer_matches(&self, content: Seq<u8>) -> bool {
        &&& self.abs_pos + self.buf@.len() <= content.len()
        &&& self.buf@ == content.subrange(self.abs_pos as int, self.abs_pos + self.buf@.len())
    }

    /// Adopts the client's current generation. A reader that has not re-read
    /// since a generation bump must not trust its buffered bytes: the unread
    /// remainder is dropped, while the logical position is preserved.
    pub fn sync_generation(&mut self, gen: usize)
        requires
            old(self).wf(),
        ensures
            final(self).wf(),
            final(self).generation == gen,
            final(self).logical_pos() == old(self).logical_pos(),
            final(self).id == old(self).id,
            final(self).size == old(self).size,
            gen == old(self).generation ==> *final(self) == *old(self),
            gen != old(self).generation ==> final(self).buf@.len() == 0 && final(self).buf_pos
                == 0,
    {
        if gen != self.generation {
            self.abs_pos = self.abs_pos + self.buf_pos;
            self.buf_pos = 0;
            self.buf = Vec::new();
            self.generation = gen;
        }
    }

    /// Whether the local buffer is exhausted, so that the next read must
    /// consult the wire.
    pub fn needs_refill(&self) -> (r: bool)
        ensures
            r <==> self.buf_pos == self.buf@.len(),
    {
        self.buf_pos == self.buf.len()
    }

    /// Entry step of a read: adopts the current generation, and if the
    /// buffer is exhausted returns the `READ` request for the logical
    /// position (any pending frames flushed before it).
    pub fn read_prepare(&mut self, io: &mut TexpressoIOState) -> (r: Option<Vec<Request>>)
        requires
            old(self).wf(),
            old(io).wf(),
        ensures
            final(self).wf(),
            final(io).wf(),
            final(self).generation == old(io).client.io.generation,
            final(self).logical_pos() == old(self).logical_pos(),
            final(self).id == old(self).id,
            final(self).size == old(self).size,
            final(io).released == old(io).released,
            final(io).next_id == old(io).next_id,
            final(io).last_passed_open == old(io).last_passed_open,
            r is Some <==> (old(self).generation != old(io).client.io.generation || old(self).buf_pos == old(self).buf@.len()),
            r matches Some(requests) ==> frames_of(requests@) == old(io).client.pending() + seq![
                Frame::Read {
                    file: old(self).id,
                    pos: old(self).logical_pos() as u32,
                    max: READ_BUF_SIZE as u32,
                },
            ] && final(io).client.pending_empty() && final(io).client.io == old(io).client.io
                && final(self).buf@.len() == 0 && final(self).buf_pos == 0 && final(self).abs_pos
                == old(self).logical_pos(),
            r is None ==> *final(io) == *old(io) && *final(self) == *old(self),
    {
        let gen = io.client.generation();
        self.sync_generation(gen);
        if self.needs_refill() {
            self.abs_pos = self.abs_pos + self.buf_pos;
            self.buf_pos = 0;
            self.buf = Vec::new();
            let requests = io.client.read(self.id, self.abs_pos as u32, READ_BUF_SIZE as u32);
            Some(requests)
        } else {
            None
        }
    }

    /// Fills the local buffer with the data block of a `READ` answer. A
    /// block larger than the buffer capacity is a fatal protocol violation
    /// and must be rejected by the caller.
    pub fn refill(&mut self, data: &[u8])
        requires
            old(self).wf(),
            old(self).buf_pos == old(self).buf@.len(),
            data@.len() <= READ_BUF_SIZE,
            old(self).logical_pos() + data@.len() <= u32::MAX,
        ensures
            final(self).wf(),
            final(self).buf@ == data@,
            final(self).buf_pos == 0,
            final(self).abs_pos == old(self).logical_pos(),
            final(self).id == old(self).id,
            final(self).size == old(self).size,
            final(self).generation == old(self).generation,
    {
        self.abs_pos = self.abs_pos + self.buf_pos;
        self.buf_pos = 0;
        let mut b: Vec<u8> = Vec::new();
        let mut i: usize = 0;
        while i < data.len()
            invariant
                0 <= i <= data@.len(),
                b@ == data@.subrange(0, i as int),
            decreases data@.len() - i,
        {
            b.push(data[i]);
            i = i + 1;
            assert(b@ =~= data@.subrange(0, i as int));
        }
        assert(b@ =~= data@);
        self.buf = b;
    }

    /// Copies up to `want` buffered bytes to the caller and advances the
    /// consumed prefix. Returns fewer bytes only when the buffer runs out;
    /// an empty result at a fresh buffer is end of stream.
    pub fn take(&mut self, want: usize) -> (out: Vec<u8>)
        requires
            old(self).wf(),
        ensures
            final(self).wf(),
            out@.len() == (if want <= old(self).buf@.len() - old(self).buf_pos {
                want as int
            } else {
                old(self).buf@.len() - old(self).buf_pos
            }),
            out@ == old(self).buf@.subrange(
                old(self).buf_pos as int,
                old(self).buf_pos + out@.len(),
            ),
            final(self).buf_pos == old(self).buf_pos + out@.len(),
            final(self).logical_pos() == old(self).logical_pos() + out@.len(),
            final(self).buf == old(self).buf,
            final(self).abs_pos == old(self).abs_pos,
            final(self).id == old(self).id,
            final(self).size == old(self).size,
            final(self).generation == old(self).generation,
    {
        let rem = self.buf.len() - self.buf_pos;
        let n = if want <= rem {
            want
        } else {
            rem
        };
        let mut out: Vec<u8> = Vec::new();
        let mut i: usize = 0;
        while i < n
            invariant
                0 <= i <= n,
                self.buf_pos + n <= self.buf@.len(),
                self.buf@.len() <= READ_BUF_SIZE,
                out@ == self.buf@.subrange(self.buf_pos as int, self.buf_pos + i),
            decreases n - i,
        {
            out.push(self.buf[self.buf_pos + i]);
            i = i + 1;
            assert(out@ =~= self.buf@.subrange(self.buf_pos as int, self.buf_pos + i));
        }
        self.buf_pos = self.buf_pos + n;
        out
    }

    /// Copies up to `want` buffered bytes and notifies the supervisor of the
    /// new high-water mark — the logical offset delivered so far — through
    /// the client's `SEEN` latch.
    pub fn consume(&mut self, io: &mut TexpressoIOState, want: usize) -> (r: (Vec<u8>, Vec<
        Request,
    >))
        requires
            old(self).wf(),
            old(io).wf(),
        ensures
            final(self).wf(),
            final(io).wf(),
            r.0@.len() == (if want <= old(self).buf@.len() - old(self).buf_pos {
                want as int
            } else {
                old(self).buf@.len() - old(self).buf_pos
            }),
            r.0@ == old(self).buf@.subrange(old(self).buf_pos as int, old(self).buf_pos
                + r.0@.len()),
            final(self).logical_pos() == old(self).logical_pos() + r.0@.len(),
            final(self).buf == old(self).buf,
            final(self).abs_pos == old(self).abs_pos,
            final(self).id == old(self).id,
            final(self).size == old(self).size,
            final(self).generation == old(self).generation,
            Client::seen_effect(
                old(io).client,
                final(io).client,
                old(self).id,
                (old(self).logical_pos() + r.0@.len()) as u32,
                frames_of(r.1@),
            ),
            final(io).released == old(io).released,
            final(io).next_id == old(io).next_id,
            final(io).last_passed_open == old(io).last_passed_open,
    {
        let out = self.take(want);
        let mark = self.abs_pos + self.buf_pos;
        let frames = io.client.seen(self.id, mark as u32);
        (out, frames)
    }

    /// The memoized file size, if a `SIZE` answer was recorded.
    pub fn cached_size(&self) -> (r: Option<usize>)
        ensures
            r == self.size,
    {
        self.size
    }

    /// Memoizes the file size from a `SIZE` answer.
    pub fn set_size(&mut self, s: usize)
        requires
            old(self).wf(),
        ensures
            final(self).wf(),
            final(self).size == Some(s),
            final(self).id == old(self).id,
            final(self).abs_pos == old(self).abs_pos,
            final(self).buf == old(self).buf,
            final(self).buf_pos == old(self).buf_pos,
            final(self).generation == old(self).generation,
    {
        self.size = Some(s);
    }
}

/// Where a seek starts from. `End(n)` means `n` bytes before the end of the
/// file.
#[derive(Clone, Copy, PartialEq, Eq, Debug)]
pub enum SeekFrom {
    Start(u64),
    Current(i64),
    End(i64),
}

/// A rejected seek: the target would lie before the start or past the end
/// of the file.
#[derive(Clone, Copy, PartialEq, Eq, Debug)]
pub struct SeekOutOfRange;

impl TexpressoReader {
    /// The absolute target of a seek, when it lies within the file.
    pub open spec fn seek_target(&self, pos: SeekFrom, size: int) -> Option<int> {
        match pos {
            SeekFrom::Start(o) => if o <= size {
                Some(o as int)
            } else {
                None
            },
            SeekFrom::Current(o) => if 0 <= self.logical_pos() + o <= size {
                Some(self.logical_pos() + o)
            } else {
                None
            },
            SeekFrom::End(o) => if 0 <= o <= size {
                Some(size - o)
            } else {
                None
            },
        }
    }

    /// Repositions the reader. A target outside the file is reported as an
    /// error, leaving the reader unchanged; on success the local buffer is
    /// dropped and the absolute position moves to the target.
    pub fn try_seek(&mut self, pos: SeekFrom, size: usize) -> (r: Result<u64, SeekOutOfRange>)
        requires
            old(self).wf(),
            size <= u32::MAX,
        ensures
            final(self).wf(),
            r matches Ok(p) ==> old(self).seek_target(pos, size as int) == Some(p as int)
                && final(self).abs_pos == p && final(self).buf@.len() == 0 && final(self).buf_pos
                == 0 && final(self).id == old(self).id && final(self).size == old(self).size
                && final(self).generation == old(self).generation,
            r is Err ==> old(self).seek_target(pos, size as int) is None && *final(self) == *old(self),
    {
        let target: u64;
        match pos {
            SeekFrom::Start(o) => {
                if o > size as u64 {
                    return Err(SeekOutOfRange);
                }
                target = o;
            },
            SeekFrom::Current(o) => {
                let cur = (self.abs_pos + self.buf_pos) as i64;
                let t = cur as i128 + o as i128;
                if t < 0 || t > size as i128 {
                    return Err(SeekOutOfRange);
                }
                target = t as u64;
            },
            SeekFrom::End(o) => {
                if o < 0 || o > size as i64 {
                    return Err(SeekOutOfRange);
                }
                target = size as u64 - o as u64;
            },
        }
        self.abs_pos = target as usize;
        self.buf = Vec::new();
        self.buf_pos = 0;
        Ok(target)
    }
}

/// One open output: the file id and the writer's absolute position.
pub struct TexpressoWriter {
    pub id: FileId,
    pub pos: usize,
}

impl TexpressoWriter {
    /// Forwards a write at the current position through the client's
    /// coalescing buffer and advances the position.
    pub fn write(&mut self, io: &mut TexpressoIOState, buf: &[u8]) -> (out: Vec<Request>)
        requires
            old(io).wf(),
            old(self).pos + buf@.len() <= u32::MAX,
        ensures
            final(io).wf(),
            final(self).id == old(self).id,
            final(self).pos == old(self).pos + buf@.len(),
            Client::write_effect(
                old(io).client,
                final(io).client,
                old(self).id,
                old(self).pos as u32,
                buf@,
                frames_of(out@),
            ),
            final(io).released == old(io).released,
            final(io).next_id == old(io).next_id,
            final(io).last_passed_open == old(io).last_passed_open,
    {
        let out = io.client.write(self.id, self.pos as u32, buf);
        self.pos = self.pos + buf.len();
        out
    }

    /// Flushes the client's pending frames; the caller must also flush the
    /// channel itself.
    pub fn flush(&self, io: &mut TexpressoIOState) -> (out: Vec<Request>)
        requires
            old(io).wf(),
        ensures
            final(io).wf(),
            frames_of(out@) == old(io).client.pending(),
            final(io).client.pending_empty(),
            final(io).client.io == old(io).client.io,
            final(io).released == old(io).released,
            final(io).next_id == old(io).next_id,
            final(io).last_passed_open == old(io).last_passed_open,
    {
        io.client.flush()
    }
}

/// The write-only handle addressing the supervisor's stdout stream: writes
/// are forwarded as ordinary `WRIT` frames for file `-1` at position 0.
pub struct TexpressoStdout;

impl TexpressoStdout {
    /// Forwards a status write to the stdout stream.
    pub fn write(&self, io: &mut TexpressoIOState, buf: &[u8]) -> (out: Vec<Request>)
        requires
            old(io).wf(),
            buf@.len() <= u32::MAX,
        ensures
            final(io).wf(),
            Client::write_effect(
                old(io).client,
                final(io).client,
                -1i32,
                0u32,
                buf@,
                frames_of(out@),
            ),
            final(io).released == old(io).released,
            final(io).next_id == old(io).next_id,
            final(io).last_passed_open == old(io).last_passed_open,
    {
        io.client.write(-1, 0, buf)
    }

    /// Flushes the client's pending frames; the caller must also flush the
    /// channel itself.
    pub fn flush(&self, io: &mut TexpressoIOState) -> (out: Vec<Request>)
        requires
            old(io).wf(),
        ensures
            final(io).wf(),
            frames_of(out@) == old(io).client.pending(),
            final(io).client.pending_empty(),
            final(io).client.io == old(io).client.io,
            final(io).released == old(io).released,
            final(io).next_id == old(io).next_id,
            final(io).last_passed_open == old(io).last_passed_open,
    {
        io.client.flush()
    }
}

impl TexpressoIO {
    /// An explicit borrow of the shared provider state; readers and writers
    /// thread it through each of their methods.
    pub fn borrow_mut(&mut self) -> (r: &mut TexpressoIOState)
        ensures
            *r == old(self).state,
            final(self).state == *final(r),
            final(self).primary == old(self).primary,
    {
        &mut self.state
    }

    /// A provider around a connected client, with the given primary input
    /// name.
    pub fn new(client: Client, primary: &str) -> (io: TexpressoIO)
        ensures
            io.state.client == client,
            io.state.released@.len() == 0,
            io.state.next_id == 0,
            io.state.last_passed_open@ == Seq::<char>::empty(),
            io.primary@ == primary@,
            client.wf() ==> io.state.wf(),
    {
        TexpressoIO { state: TexpressoIOState::new(client), primary: primary.to_owned() }
    }

    /// The write-only handle for the supervisor's stdout stream.
    pub fn stdout(&self) -> (r: TexpressoStdout)
    {
        TexpressoStdout
    }

    /// Begins a picture-bounds lookup.
    pub fn gpic(&mut self, path: &str, typ: i32, page: i32) -> (out: Vec<Request>)
        requires
            old(self).state.wf(),
        ensures
            final(self).state.wf(),
            frames_of(out@) == old(self).state.client.pending() + seq![
                Frame::Gpic { path: path@, typ, page },
            ],
            final(self).state.client.pending_empty(),
            final(self).state.client.io == old(self).state.client.io,
            final(self).primary == old(self).primary,
    {
        self.state.client.gpic(path, typ, page)
    }

    /// Begins a picture-bounds store. The bounds are the raw bit patterns of
    /// the four 32-bit fields.
    pub fn spic(&mut self, path: &str, typ: i32, page: i32, bounds: &[u32; 4]) -> (out: Vec<
        Request,
    >)
        requires
            old(self).state.wf(),
        ensures
            final(self).state.wf(),
            frames_of(out@) == old(self).state.client.pending() + seq![
                Frame::Spic { path: path@, typ, page, bounds: bounds@ },
            ],
            final(self).state.client.pending_empty(),
            final(self).state.client.io == old(self).state.client.io,
            final(self).primary == old(self).primary,
    {
        self.state.client.spic(path, typ, page, bounds)
    }

    /// Begins an input open of the designated primary input.
    pub fn input_open_primary(&mut self) -> (r: InputOpenStart)
        requires
            old(self).state.wf(),
            old(self).primary@ != old(self).state.last_passed_open@ ==> old(self).state.released@.len() > 0 || old(self).state.next_id < 1024,
        ensures
            final(self).state.wf(),
            final(self).primary == old(self).primary,
            old(self).primary@ == old(self).state.last_passed_open@ ==> r is NotAvailable
                && final(self).state == old(self).state,
            old(self).primary@ != old(self).state.last_passed_open@ ==> (r matches
                InputOpenStart::Query { id, requests } && frames_of(requests@) == old(self).state.client.pending() + seq![
                Frame::Open { file: id, path: old(self).primary@, mode: "r?"@ },
            ] && final(self).state.id_live(id) && final(self).state.client.pending_empty()),
    {
        self.state.input_open_name(self.primary.as_str())
    }

    /// Begins an input open, also returning the absolute-path hint that
    /// accompanies a successful open: the requested name itself.
    pub fn input_open_name_with_abspath(&mut self, name: &str) -> (r: (InputOpenStart, String))
        requires
            old(self).state.wf(),
            name@ != old(self).state.last_passed_open@ ==> old(self).state.released@.len() > 0
                || old(self).state.next_id < 1024,
        ensures
            final(self).state.wf(),
            final(self).primary == old(self).primary,
            r.1@ == name@,
            name@ == old(self).state.last_passed_open@ ==> r.0 is NotAvailable && final(self).state == old(self).state,
            name@ != old(self).state.last_passed_open@ ==> (r.0 matches InputOpenStart::Query {
                id,
                requests,
            } && frames_of(requests@) == old(self).state.client.pending() + seq![
                Frame::Open { file: id, path: name@, mode: "r?"@ },
            ] && final(self).state.id_live(id) && final(self).state.client.pending_empty()),
    {
        let start = self.state.input_open_name(name);
        (start, name.to_owned())
    }

    /// Begins an input open of the primary input, also returning its
    /// absolute-path hint.
    pub fn input_open_primary_with_abspath(&mut self) -> (r: (InputOpenStart, String))
        requires
            old(self).state.wf(),
            old(self).primary@ != old(self).state.last_passed_open@ ==> old(self).state.released@.len() > 0 || old(self).state.next_id < 1024,
        ensures
            final(self).state.wf(),
            final(self).primary == old(self).primary,
            r.1@ == old(self).primary@,
            old(self).primary@ == old(self).state.last_passed_open@ ==> r.0 is NotAvailable
                && final(self).state == old(self).state,
            old(self).primary@ != old(self).state.last_passed_open@ ==> (r.0 matches
                InputOpenStart::Query { id, requests } && frames_of(requests@) == old(self).state.client.pending() + seq![
                Frame::Open { file: id, path: old(self).primary@, mode: "r?"@ },
            ] && final(self).state.id_live(id) && final(self).state.client.pending_empty()),
    {
        let hint = self.primary.clone();
        let start = self.state.input_open_name(self.primary.as_str());
        (start, hint)
    }

    /// Format files are never served by the supervisor; the fallback bundle
    /// answers them instead.
    pub fn input_open_format(&self) -> (r: InputOpenStart)
        ensures
            r is NotAvailable,
    {
        InputOpenStart::NotAvailable
    }

    /// The standard output stream is surfaced through the dedicated status
    /// sink, never as an ordinary output handle.
    pub fn output_open_stdout(&self) -> (r: Option<TexpressoWriter>)
        ensures
            r is None,
    {
        None
    }
}

/// Once allocated, a file id is unique until closed: the allocator can
/// never hand out an id that is still live, since it only yields free ones.
pub proof fn lemma_allocated_ids_distinct(s: TexpressoIOState, id1: FileId, id2: FileId)
    requires
        s.id_live(id1),
        s.id_free(id2),
    ensures
        id1 != id2,
{
}

/// A refill with the supervisor's bytes for the requested position brings
/// the buffer back into agreement with the content: together with the laws
/// below, the bytes delivered across successive reads concatenate to the
/// content at the observed generation.
pub proof fn lemma_refill_restores_agreement(
    pre: TexpressoReader,
    post: TexpressoReader,
    data: Seq<u8>,
    content: Seq<u8>,
)
    requires
        post.abs_pos == pre.logical_pos(),
        post.buf@ == data,
        post.buf_pos == 0,
        pre.logical_pos() + data.len() <= content.len(),
        data == content.subrange(pre.logical_pos(), pre.logical_pos() + data.len()),
    ensures
        post.buffer_matches(content),
{
}

/// What a reader hands out continues the supervisor's content: if the
/// buffered bytes agree with the content at the buffer's absolute position,
/// the bytes `take` returns are exactly the content at the logical position.
pub proof fn lemma_take_delivers(pre: TexpressoReader, content: Seq<u8>, n: int)
    requires
        pre.wf(),
        pre.buffer_matches(content),
        0 <= n <= pre.buf@.len() - pre.buf_pos,
    ensures
        pre.buf@.subrange(pre.buf_pos as int, pre.buf_pos + n) == content.subrange(
            pre.logical_pos(),
            pre.logical_pos() + n,
        ),
{
    assert(pre.buf@.subrange(pre.buf_pos as int, pre.buf_pos + n) =~= content.subrange(
        pre.logical_pos(),
        pre.logical_pos() + n,
    ));
}

} // verus!
