//! Wire layer: framing of client requests and classification of reply tags.
//!
//! Every message on the channel begins with a 4-byte ASCII tag. Requests from
//! the client are followed by a 4-byte little-endian elapsed-milliseconds
//! stamp and then by typed fields: 4-byte little-endian integers,
//! NUL-terminated UTF-8 strings, and raw length-prefixed byte blobs.

use vstd::prelude::*;
use vstd::bytes::{spec_u32_to_le_bytes, spec_u64_from_le_bytes, u32_from_le_bytes, u32_to_le_bytes,
    u64_from_le_bytes};
use vstd::string::StrSliceExecFns;
use vstd::utf8::encode_utf8;

verus! {

/// "OPEN" as a little-endian 32-bit word.
pub const TAG_OPEN: u32 = 0x4E45_504F;
/// "READ" as a little-endian 32-bit word.
pub const TAG_READ: u32 = 0x4441_4552;
/// "WRIT" as a little-endian 32-bit word.
pub const TAG_WRIT: u32 = 0x5449_5257;
/// "CLOS" as a little-endian 32-bit word.
pub const TAG_CLOS: u32 = 0x534F_4C43;
/// "SIZE" as a little-endian 32-bit word.
pub const TAG_SIZE: u32 = 0x455A_4953;
/// "SEEN" as a little-endian 32-bit word.
pub const TAG_SEEN: u32 = 0x4E45_4553;
/// "ACCS" as a little-endian 32-bit word.
pub const TAG_ACCS: u32 = 0x5343_4341;
/// "STAT" as a little-endian 32-bit word.
pub const TAG_STAT: u32 = 0x5441_5453;
/// "GPIC" as a little-endian 32-bit word.
pub const TAG_GPIC: u32 = 0x4349_5047;
/// "SPIC" as a little-endian 32-bit word.
pub const TAG_SPIC: u32 = 0x4349_5053;
/// "CHLD" as a little-endian 32-bit word.
pub const TAG_CHLD: u32 = 0x444C_4843;
/// "BACK" as a little-endian 32-bit word.
pub const TAG_BACK: u32 = 0x4B43_4142;
/// "PASS" as a little-endian 32-bit word.
pub const TAG_PASS: u32 = 0x5353_4150;
/// "DONE" as a little-endian 32-bit word.
pub const TAG_DONE: u32 = 0x454E_4F44;
/// "FORK" as a little-endian 32-bit word.
pub const TAG_FORK: u32 = 0x4B52_4F46;
/// "FLSH" as a little-endian 32-bit word.
pub const TAG_FLSH: u32 = 0x4853_4C46;
/// "TERM" as a little-endian 32-bit word.
pub const TAG_TERM: u32 = 0x4D52_4554;

/// A request frame issued by the client, before stamping and serialization.
#[derive(Clone, PartialEq, Debug)]
pub enum Request {
    Open { file: i32, path: String, mode: String },
    Read { file: i32, pos: u32, max: u32 },
    Writ { file: i32, pos: u32, data: Vec<u8> },
    Clos { file: i32 },
    Size { file: i32 },
    Seen { file: i32, pos: u32 },
    Accs { path: String, mode: u32 },
    Stat { path: String },
    Gpic { path: String, typ: i32, page: i32 },
    Spic { path: String, typ: i32, page: i32, bounds: [u32; 4] },
    Chld { pid: i32 },
    Back { ppid: i32, cpid: i32, exit: u32 },
}

/// The mathematical model of a request frame. Strings are modelled as
/// character sequences, blob payloads as byte sequences, and picture bounds
/// as the raw bit patterns of the four 32-bit fields carried on the wire.
pub enum Frame {
    Open { file: i32, path: Seq<char>, mode: Seq<char> },
    Read { file: i32, pos: u32, max: u32 },
    Writ { file: i32, pos: u32, data: Seq<u8> },
    Clos { file: i32 },
    Size { file: i32 },
    Seen { file: i32, pos: u32 },
    Accs { path: Seq<char>, mode: u32 },
    Stat { path: Seq<char> },
    Gpic { path: Seq<char>, typ: i32, page: i32 },
    Spic { path: Seq<char>, typ: i32, page: i32, bounds: Seq<u32> },
    Chld { pid: i32 },
    Back { ppid: i32, cpid: i32, exit: u32 },
}

impl View for Request {
    type V = Frame;

    open spec fn view(&self) -> Frame {
        match self {
            Request::Open { file, path, mode } => Frame::Open {
                file: *file,
                path: path@,
                mode: mode@,
            },
            Request::Read { file, pos, max } => Frame::Read { file: *file, pos: *pos, max: *max },
            Request::Writ { file, pos, data } => Frame::Writ {
                file: *file,
                pos: *pos,
                data: data@,
            },
            Request::Clos { file } => Frame::Clos { file: *file },
            Request::Size { file } => Frame::Size { file: *file },
            Request::Seen { file, pos } => Frame::Seen { file: *file, pos: *pos },
            Request::Accs { path, mode } => Frame::Accs { path: path@, mode: *mode },
            Request::Stat { path } => Frame::Stat { path: path@ },
            Request::Gpic { path, typ, page } => Frame::Gpic {
                path: path@,
                typ: *typ,
                page: *page,
            },
            Request::Spic { path, typ, page, bounds } => Frame::Spic {
                path: path@,
                typ: *typ,
                page: *page,
                bounds: bounds@,
            },
            Request::Chld { pid } => Frame::Chld { pid: *pid },
            Request::Back { ppid, cpid, exit } => Frame::Back {
                ppid: *ppid,
                cpid: *cpid,
                exit: *exit,
            },
        }
    }
}

/// The frame sequence denoted by a sequence of requests.
pub open spec fn frames_of(s: Seq<Request>) -> Seq<Frame> {
    s.map_values(|r: Request| r@)
}

/// Little-endian serialization of a signed 32-bit field (two's complement).
pub open spec fn spec_le_i32(v: i32) -> Seq<u8> {
    spec_u32_to_le_bytes(v as u32)
}

/// A NUL-terminated UTF-8 string field.
pub open spec fn spec_zstr(s: Seq<char>) -> Seq<u8> {
    encode_utf8(s) + seq![0u8]
}

/// The tag word of a frame.
pub open spec fn spec_tag_of(f: Frame) -> u32 {
    match f {
        Frame::Open { .. } => TAG_OPEN,
        Frame::Read { .. } => TAG_READ,
        Frame::Writ { .. } => TAG_WRIT,
        Frame::Clos { .. } => TAG_CLOS,
        Frame::Size { .. } => TAG_SIZE,
        Frame::Seen { .. } => TAG_SEEN,
        Frame::Accs { .. } => TAG_ACCS,
        Frame::Stat { .. } => TAG_STAT,
        Frame::Gpic { .. } => TAG_GPIC,
        Frame::Spic { .. } => TAG_SPIC,
        Frame::Chld { .. } => TAG_CHLD,
        Frame::Back { .. } => TAG_BACK,
    }
}

/// The typed fields of a frame, serialized in order.
pub open spec fn spec_payload(f: Frame) -> Seq<u8> {
    match f {
        Frame::Open { file, path, mode } => spec_le_i32(file) + spec_zstr(path) + spec_zstr(mode),
        Frame::Read { file, pos, max } => spec_le_i32(file) + spec_u32_to_le_bytes(pos)
            + spec_u32_to_le_bytes(max),
        Frame::Writ { file, pos, data } => spec_le_i32(file) + spec_u32_to_le_bytes(pos)
            + spec_u32_to_le_bytes(data.len() as u32) + data,
        Frame::Clos { file } => spec_le_i32(file),
        Frame::Size { file } => spec_le_i32(file),
        Frame::Seen { file, pos } => spec_le_i32(file) + spec_u32_to_le_bytes(pos),
        Frame::Accs { path, mode } => spec_zstr(path) + spec_u32_to_le_bytes(mode),
        Frame::Stat { path } => spec_zstr(path),
        Frame::Gpic { path, typ, page } => spec_zstr(path) + spec_le_i32(typ) + spec_le_i32(page),
        Frame::Spic { path, typ, page, bounds } => spec_zstr(path) + spec_le_i32(typ) + spec_le_i32(
            page,
        ) + spec_u32_to_le_bytes(bounds[0]) + spec_u32_to_le_bytes(bounds[1])
            + spec_u32_to_le_bytes(bounds[2]) + spec_u32_to_le_bytes(bounds[3]),
        Frame::Chld { pid } => spec_le_i32(pid),
        Frame::Back { ppid, cpid, exit } => spec_le_i32(ppid) + spec_le_i32(cpid)
            + spec_u32_to_le_bytes(exit),
    }
}

/// A stamped frame as it appears on the wire: tag, elapsed-milliseconds
/// stamp, then the typed fields.
pub open spec fn spec_encode(f: Frame, stamp: u32) -> Seq<u8> {
    spec_u32_to_le_bytes(spec_tag_of(f)) + spec_u32_to_le_bytes(stamp) + spec_payload(f)
}

/// Appends the little-endian serialization of an unsigned 32-bit field.
pub fn push_u32_le(out: &mut Vec<u8>, v: u32)
    ensures
        final(out)@ == old(out)@ + spec_u32_to_le_bytes(v),
{
    let mut b = u32_to_le_bytes(v);
    out.append(&mut b);
}

/// Appends the little-endian serialization of a signed 32-bit field.
pub fn push_i32_le(out: &mut Vec<u8>, v: i32)
    ensures
        final(out)@ == old(out)@ + spec_le_i32(v),
{
    push_u32_le(out, v as u32);
}

/// Appends a NUL-terminated UTF-8 string field.
pub fn push_zstr(out: &mut Vec<u8>, s: &str)
    ensures
        final(out)@ == old(out)@ + spec_zstr(s@),
{
    let mut b = s.as_bytes_vec();
    out.append(&mut b);
    out.push(0u8);
    assert(out@ =~= old(out)@ + spec_zstr(s@));
}

/// Serializes a stamped request frame onto the end of `out`.
pub fn encode_request(req: &Request, stamp: u32, out: &mut Vec<u8>)
    requires
        req is Writ ==> (req->Writ_data)@.len() <= u32::MAX,
    ensures
        final(out)@ == old(out)@ + spec_encode(req@, stamp),
{
    match req {
        Request::Open { file, path, mode } => {
            push_u32_le(out, TAG_OPEN);
            push_u32_le(out, stamp);
            push_i32_le(out, *file);
            push_zstr(out, path.as_str());
            push_zstr(out, mode.as_str());
        },
        Request::Read { file, pos, max } => {
            push_u32_le(out, TAG_READ);
            push_u32_le(out, stamp);
            push_i32_le(out, *file);
            push_u32_le(out, *pos);
            push_u32_le(out, *max);
        },
        Request::Writ { file, pos, data } => {
            push_u32_le(out, TAG_WRIT);
            push_u32_le(out, stamp);
            push_i32_le(out, *file);
            push_u32_le(out, *pos);
            push_u32_le(out, data.len() as u32);
            let mut d = data.clone();
            out.append(&mut d);
        },
        Request::Clos { file } => {
            push_u32_le(out, TAG_CLOS);
            push_u32_le(out, stamp);
            push_i32_le(out, *file);
        },
        Request::Size { file } => {
            push_u32_le(out, TAG_SIZE);
            push_u32_le(out, stamp);
            push_i32_le(out, *file);
        },
        Request::Seen { file, pos } => {
            push_u32_le(out, TAG_SEEN);
            push_u32_le(out, stamp);
            push_i32_le(out, *file);
            push_u32_le(out, *pos);
        },
        Request::Accs { path, mode } => {
            push_u32_le(out, TAG_ACCS);
            push_u32_le(out, stamp);
            push_zstr(out, path.as_str());
            push_u32_le(out, *mode);
        },
        Request::Stat { path } => {
            push_u32_le(out, TAG_STAT);
            push_u32_le(out, stamp);
            push_zstr(out, path.as_str());
        },
        Request::Gpic { path, typ, page } => {
            push_u32_le(out, TAG_GPIC);
            push_u32_le(out, stamp);
            push_zstr(out, path.as_str());
            push_i32_le(out, *typ);
            push_i32_le(out, *page);
        },
        Request::Spic { path, typ, page, bounds } => {
            push_u32_le(out, TAG_SPIC);
            push_u32_le(out, stamp);
            push_zstr(out, path.as_str());
            push_i32_le(out, *typ);
            push_i32_le(out, *page);
            push_u32_le(out, bounds[0]);
            push_u32_le(out, bounds[1]);
            push_u32_le(out, bounds[2]);
            push_u32_le(out, bounds[3]);
        },
        Request::Chld { pid } => {
            push_u32_le(out, TAG_CHLD);
            push_u32_le(out, stamp);
            push_i32_le(out, *pid);
        },
        Request::Back { ppid, cpid, exit } => {
            push_u32_le(out, TAG_BACK);
            push_u32_le(out, stamp);
            push_i32_le(out, *ppid);
            push_i32_le(out, *cpid);
            push_u32_le(out, *exit);
        },
    }
    assert(out@ =~= old(out)@ + spec_encode(req@, stamp));
}

/// Reads a 4-byte little-endian unsigned field.
pub fn decode_u32(b: &[u8]) -> (r: u32)
    requires
        b@.len() == 4,
    ensures
        r == vstd::bytes::spec_u32_from_le_bytes(b@),
{
    u32_from_le_bytes(b)
}

/// Reads an 8-byte little-endian unsigned field.
pub fn decode_u64(b: &[u8]) -> (r: u64)
    requires
        b@.len() == 8,
    ensures
        r == spec_u64_from_le_bytes(b@),
{
    u64_from_le_bytes(b)
}

/// The four tag bytes as characters, for diagnostics.
pub fn fmt_tag(tag: &[u8; 4]) -> (r: [char; 4])
    ensures
        r@ == tag@.map_values(|b: u8| b as char),
{
    let r = [tag[0] as char, tag[1] as char, tag[2] as char, tag[3] as char];
    assert(r@ =~= tag@.map_values(|b: u8| b as char));
    r
}

/// The classes of tags that can appear in a reply slot.
#[derive(Clone, Copy, PartialEq, Eq, Debug)]
pub enum TagKind {
    Done,
    Pass,
    Open,
    Read,
    Fork,
    Size,
    Accs,
    Stat,
    Gpic,
    Flsh,
    Term,
    Unknown,
}

/// Classification of a reply-slot tag word.
pub open spec fn spec_classify_tag(t: u32) -> TagKind {
    if t == TAG_DONE {
        TagKind::Done
    } else if t == TAG_PASS {
        TagKind::Pass
    } else if t == TAG_OPEN {
        TagKind::Open
    } else if t == TAG_READ {
        TagKind::Read
    } else if t == TAG_FORK {
        TagKind::Fork
    } else if t == TAG_SIZE {
        TagKind::Size
    } else if t == TAG_ACCS {
        TagKind::Accs
    } else if t == TAG_STAT {
        TagKind::Stat
    } else if t == TAG_GPIC {
        TagKind::Gpic
    } else if t == TAG_FLSH {
        TagKind::Flsh
    } else if t == TAG_TERM {
        TagKind::Term
    } else {
        TagKind::Unknown
    }
}

/// Classifies a reply-slot tag word.
pub fn classify_tag(t: u32) -> (r: TagKind)
    ensures
        r == spec_classify_tag(t),
{
    if t == TAG_DONE {
        TagKind::Done
    } else if t == TAG_PASS {
        TagKind::Pass
    } else if t == TAG_OPEN {
        TagKind::Open
    } else if t == TAG_READ {
        TagKind::Read
    } else if t == TAG_FORK {
        TagKind::Fork
    } else if t == TAG_SIZE {
        TagKind::Size
    } else if t == TAG_ACCS {
        TagKind::Accs
    } else if t == TAG_STAT {
        TagKind::Stat
    } else if t == TAG_GPIC {
        TagKind::Gpic
    } else if t == TAG_FLSH {
        TagKind::Flsh
    } else if t == TAG_TERM {
        TagKind::Term
    } else {
        TagKind::Unknown
    }
}

/// The 12 bytes the client writes immediately after connecting:
/// `TEXPRESSOC01` in ASCII.
pub open spec fn spec_client_hello() -> Seq<u8> {
    seq![0x54u8, 0x45, 0x58, 0x50, 0x52, 0x45, 0x53, 0x53, 0x4F, 0x43, 0x30, 0x31]
}

/// The 12 bytes the server must answer with: `TEXPRESSOS01` in ASCII.
pub open spec fn spec_server_hello() -> Seq<u8> {
    seq![0x54u8, 0x45, 0x58, 0x50, 0x52, 0x45, 0x53, 0x53, 0x4F, 0x53, 0x30, 0x31]
}

/// The handshake greeting the client sends.
pub fn client_hello() -> (r: Vec<u8>)
    ensures
        r@ == spec_client_hello(),
{
    let mut v: Vec<u8> = Vec::new();
    v.push(0x54);
    v.push(0x45);
    v.push(0x58);
    v.push(0x50);
    v.push(0x52);
    v.push(0x45);
    v.push(0x53);
    v.push(0x53);
    v.push(0x4F);
    v.push(0x43);
    v.push(0x30);
    v.push(0x31);
    assert(v@ =~= spec_client_hello());
    v
}

/// Checks the server's handshake answer. Any reply other than the exact
/// 12 greeting bytes is a fatal connection failure.
pub fn server_hello_ok(reply: &[u8]) -> (b: bool)
    ensures
        b <==> reply@ == spec_server_hello(),
{
    if reply.len() != 12 {
        return false;
    }
    let expect = [0x54u8, 0x45, 0x58, 0x50, 0x52, 0x45, 0x53, 0x53, 0x4F, 0x53, 0x30, 0x31];
    assert(expect@ =~= spec_server_hello());
    let mut i: usize = 0;
    while i < 12
        invariant
            0 <= i <= 12,
            reply@.len() == 12,
            expect@ =~= spec_server_hello(),
            forall|j: int| 0 <= j < i ==> reply@[j] == spec_server_hello()[j],
        decreases 12 - i,
    {
        if reply[i] != expect[i] {
            return false;
        }
        i = i + 1;
    }
    assert(reply@ =~= spec_server_hello());
    true
}

} // verus!

verus! {

/// The outcome of an `ACCS` query, decoded from its status code.
pub enum AccessResult {
    Pass,
    Granted,
    ENoEnt,
    EAccess,
}

/// What an `OPEN` request may be answered with.
#[derive(Clone, Copy, PartialEq, Eq, Debug)]
pub enum OpenReply {
    /// The supervisor declines to serve the file.
    Pass,
    /// A canonical path string follows: a 4-byte length, then that many bytes.
    Path,
    /// Any other tag desynchronizes the session and is fatal.
    Violation,
}

/// Maps a reply-slot tag to the outcome of an `OPEN` request.
pub fn open_reply(k: TagKind) -> (r: OpenReply)
    ensures
        r is Pass <==> k is Pass,
        r is Path <==> k is Open,
        r is Violation <==> !(k is Pass || k is Open),
{
    match k {
        TagKind::Pass => OpenReply::Pass,
        TagKind::Open => OpenReply::Path,
        _ => OpenReply::Violation,
    }
}

/// What a `READ` request may be answered with.
#[derive(Clone, Copy, PartialEq, Eq, Debug)]
pub enum ReadReply {
    /// The supervisor initiates the speculative-fork protocol.
    Fork,
    /// A data block follows: a 4-byte size, then that many bytes.
    Data,
    /// Any other tag desynchronizes the session and is fatal.
    Violation,
}

/// Maps a reply-slot tag to the outcome of a `READ` request.
pub fn read_reply(k: TagKind) -> (r: ReadReply)
    ensures
        r is Fork <==> k is Fork,
        r is Data <==> k is Read,
        r is Violation <==> !(k is Fork || k is Read),
{
    match k {
        TagKind::Fork => ReadReply::Fork,
        TagKind::Read => ReadReply::Data,
        _ => ReadReply::Violation,
    }
}

/// Whether a tag is the `DONE` acknowledgement; anything else in a `DONE`
/// slot is a fatal protocol violation.
pub fn done_reply(k: TagKind) -> (ok: bool)
    ensures
        ok <==> k is Done,
{
    match k {
        TagKind::Done => true,
        _ => false,
    }
}

/// Whether a tag is the `SIZE` answer; anything else in a `SIZE` slot is a
/// fatal protocol violation.
pub fn size_reply(k: TagKind) -> (ok: bool)
    ensures
        ok <==> k is Size,
{
    match k {
        TagKind::Size => true,
        _ => false,
    }
}

/// What a `GPIC` request may be answered with.
#[derive(Clone, Copy, PartialEq, Eq, Debug)]
pub enum GpicReply {
    /// No cached bounds are known.
    Pass,
    /// Four 4-byte bound fields follow.
    Bounds,
    /// Any other tag desynchronizes the session and is fatal.
    Violation,
}

/// Maps a reply-slot tag to the outcome of a `GPIC` request.
pub fn gpic_reply(k: TagKind) -> (r: GpicReply)
    ensures
        r is Pass <==> k is Pass,
        r is Bounds <==> k is Gpic,
        r is Violation <==> !(k is Pass || k is Gpic),
{
    match k {
        TagKind::Pass => GpicReply::Pass,
        TagKind::Gpic => GpicReply::Bounds,
        _ => GpicReply::Violation,
    }
}

/// Maps the reply to a `BACK` control message: `DONE` resumes the parent,
/// `PASS` aborts it, anything else is a fatal protocol violation.
pub fn back_reply(k: TagKind) -> (r: Option<bool>)
    ensures
        k is Done ==> r == Some(true),
        k is Pass ==> r == Some(false),
        !(k is Done || k is Pass) ==> r is None,
{
    match k {
        TagKind::Done => Some(true),
        TagKind::Pass => Some(false),
        _ => None,
    }
}

/// Decodes the status code of an `ACCS` answer: 0 is not known, 1 grants
/// access, 2 and 3 deny it; any other code is a fatal protocol violation.
pub fn accs_code(v: u32) -> (r: Option<AccessResult>)
    ensures
        v == 0 ==> (r matches Some(a) && a is Pass),
        v == 1 ==> (r matches Some(a) && a is Granted),
        v == 2 ==> (r matches Some(a) && a is ENoEnt),
        v == 3 ==> (r matches Some(a) && a is EAccess),
        v > 3 ==> r is None,
{
    if v == 0 {
        Some(AccessResult::Pass)
    } else if v == 1 {
        Some(AccessResult::Granted)
    } else if v == 2 {
        Some(AccessResult::ENoEnt)
    } else if v == 3 {
        Some(AccessResult::EAccess)
    } else {
        None
    }
}

/// Decodes the status code of a `STAT` answer: with 1, sixteen 4-byte
/// metadata fields follow; with 0, nothing is known; any other code is a
/// fatal protocol violation.
pub fn stat_code(v: u32) -> (r: Option<bool>)
    ensures
        v == 1 ==> r == Some(true),
        v == 0 ==> r == Some(false),
        v > 1 ==> r is None,
{
    if v == 1 {
        Some(true)
    } else if v == 0 {
        Some(false)
    } else {
        None
    }
}

/// The sixteen metadata fields of a successful `STAT` answer, in wire order.
#[derive(Clone, Copy, PartialEq, Eq, Debug)]
pub struct StatFields {
    pub dev: u32,
    pub ino: u32,
    pub mode: u32,
    pub nlink: u32,
    pub uid: u32,
    pub gid: u32,
    pub rdev: u32,
    pub size: u32,
    pub blksize: u32,
    pub blocks: u32,
    pub atime: u32,
    pub atime_ns: u32,
    pub ctime: u32,
    pub ctime_ns: u32,
    pub mtime: u32,
    pub mtime_ns: u32,
}

/// The field of a `STAT` answer at the given index, decoded from its 64
/// payload bytes.
pub open spec fn spec_stat_field(b: Seq<u8>, i: int) -> u32 {
    vstd::bytes::spec_u32_from_le_bytes(b.subrange(4 * i, 4 * i + 4))
}

/// Decodes the 64 payload bytes of a successful `STAT` answer.
pub fn decode_stat(b: &[u8]) -> (r: StatFields)
    requires
        b@.len() == 64,
    ensures
        r.dev == spec_stat_field(b@, 0),
        r.ino == spec_stat_field(b@, 1),
        r.mode == spec_stat_field(b@, 2),
        r.nlink == spec_stat_field(b@, 3),
        r.uid == spec_stat_field(b@, 4),
        r.gid == spec_stat_field(b@, 5),
        r.rdev == spec_stat_field(b@, 6),
        r.size == spec_stat_field(b@, 7),
        r.blksize == spec_stat_field(b@, 8),
        r.blocks == spec_stat_field(b@, 9),
        r.atime == spec_stat_field(b@, 10),
        r.atime_ns == spec_stat_field(b@, 11),
        r.ctime == spec_stat_field(b@, 12),
        r.ctime_ns == spec_stat_field(b@, 13),
        r.mtime == spec_stat_field(b@, 14),
        r.mtime_ns == spec_stat_field(b@, 15),
{
    let r = StatFields {
        dev: stat_field(b, 0),
        ino: stat_field(b, 1),
        mode: stat_field(b, 2),
        nlink: stat_field(b, 3),
        uid: stat_field(b, 4),
        gid: stat_field(b, 5),
        rdev: stat_field(b, 6),
        size: stat_field(b, 7),
        blksize: stat_field(b, 8),
        blocks: stat_field(b, 9),
        atime: stat_field(b, 10),
        atime_ns: stat_field(b, 11),
        ctime: stat_field(b, 12),
        ctime_ns: stat_field(b, 13),
        mtime: stat_field(b, 14),
        mtime_ns: stat_field(b, 15),
    };
    r
}

/// Reads the 4-byte little-endian field at the given index of a `STAT`
/// payload.
fn stat_field(b: &[u8], i: usize) -> (r: u32)
    requires
        b@.len() == 64,
        i < 16,
    ensures
        r == spec_stat_field(b@, i as int),
{
    let s = vstd::slice::slice_subrange(b, 4 * i, 4 * i + 4);
    u32_from_le_bytes(s)
}

/// Whether a `TERM` control message addresses this process; a mismatch is
/// fatal.
pub fn term_matches(pid: i32, own_pid: i32) -> (r: bool)
    ensures
        r <==> pid == own_pid,
{
    pid == own_pid
}

} // verus!
