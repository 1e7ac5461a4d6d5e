use texpresso::wire::{
    classify_tag, client_hello, decode_stat, decode_u32, decode_u64, encode_request, fmt_tag,
    server_hello_ok, AccessResult, GpicReply, OpenReply, ReadReply, Request, TagKind, accs_code,
    back_reply, done_reply, gpic_reply, open_reply, read_reply, size_reply, stat_code,
    term_matches, TAG_ACCS, TAG_BACK, TAG_CHLD, TAG_CLOS, TAG_DONE, TAG_FLSH, TAG_FORK, TAG_GPIC,
    TAG_OPEN, TAG_PASS, TAG_READ, TAG_SEEN, TAG_SIZE, TAG_SPIC, TAG_STAT, TAG_TERM, TAG_WRIT,
};

#[test]
fn tag_constants_spell_their_ascii_names() {
    assert_eq!(TAG_OPEN, u32::from_le_bytes(*b"OPEN"));
    assert_eq!(TAG_READ, u32::from_le_bytes(*b"READ"));
    assert_eq!(TAG_WRIT, u32::from_le_bytes(*b"WRIT"));
    assert_eq!(TAG_CLOS, u32::from_le_bytes(*b"CLOS"));
    assert_eq!(TAG_SIZE, u32::from_le_bytes(*b"SIZE"));
    assert_eq!(TAG_SEEN, u32::from_le_bytes(*b"SEEN"));
    assert_eq!(TAG_ACCS, u32::from_le_bytes(*b"ACCS"));
    assert_eq!(TAG_STAT, u32::from_le_bytes(*b"STAT"));
    assert_eq!(TAG_GPIC, u32::from_le_bytes(*b"GPIC"));
    assert_eq!(TAG_SPIC, u32::from_le_bytes(*b"SPIC"));
    assert_eq!(TAG_CHLD, u32::from_le_bytes(*b"CHLD"));
    assert_eq!(TAG_BACK, u32::from_le_bytes(*b"BACK"));
    assert_eq!(TAG_PASS, u32::from_le_bytes(*b"PASS"));
    assert_eq!(TAG_DONE, u32::from_le_bytes(*b"DONE"));
    assert_eq!(TAG_FORK, u32::from_le_bytes(*b"FORK"));
    assert_eq!(TAG_FLSH, u32::from_le_bytes(*b"FLSH"));
    assert_eq!(TAG_TERM, u32::from_le_bytes(*b"TERM"));
}

#[test]
fn handshake_greeting_is_texpresso_c01() {
    assert_eq!(client_hello(), b"TEXPRESSOC01".to_vec());
}

#[test]
fn handshake_accepts_only_texpresso_s01() {
    assert!(server_hello_ok(b"TEXPRESSOS01"));
    assert!(!server_hello_ok(b"TEXPRESSOC01"));
    assert!(!server_hello_ok(b"TEXPRESSOS02"));
    assert!(!server_hello_ok(b"TEXPRESSOS0"));
    assert!(!server_hello_ok(b""));
    assert!(!server_hello_ok(b"TEXPRESSOS011"));
}

#[test]
fn open_request_frames_fields_in_order() {
    let req = Request::Open {
        file: 0,
        path: String::from("main.tex"),
        mode: String::from("r?"),
    };
    let mut out = Vec::new();
    encode_request(&req, 0, &mut out);
    let mut expect = Vec::new();
    expect.extend_from_slice(b"OPEN");
    expect.extend_from_slice(&0u32.to_le_bytes());
    expect.extend_from_slice(&0i32.to_le_bytes());
    expect.extend_from_slice(b"main.tex\0");
    expect.extend_from_slice(b"r?\0");
    assert_eq!(out, expect);
}

#[test]
fn read_request_carries_position_and_max() {
    let req = Request::Read { file: 0, pos: 0, max: 1024 };
    let mut out = Vec::new();
    encode_request(&req, 7, &mut out);
    let mut expect = Vec::new();
    expect.extend_from_slice(b"READ");
    expect.extend_from_slice(&7u32.to_le_bytes());
    expect.extend_from_slice(&0i32.to_le_bytes());
    expect.extend_from_slice(&0u32.to_le_bytes());
    expect.extend_from_slice(&1024u32.to_le_bytes());
    assert_eq!(out, expect);
}

#[test]
fn writ_request_prefixes_the_blob_length() {
    let req = Request::Writ { file: 3, pos: 5, data: b"abcde".to_vec() };
    let mut out = Vec::new();
    encode_request(&req, 1, &mut out);
    let mut expect = Vec::new();
    expect.extend_from_slice(b"WRIT");
    expect.extend_from_slice(&1u32.to_le_bytes());
    expect.extend_from_slice(&3i32.to_le_bytes());
    expect.extend_from_slice(&5u32.to_le_bytes());
    expect.extend_from_slice(&5u32.to_le_bytes());
    expect.extend_from_slice(b"abcde");
    assert_eq!(out, expect);
}

#[test]
fn seen_and_clos_requests_encode_their_fields() {
    let mut out = Vec::new();
    encode_request(&Request::Seen { file: 0, pos: 13 }, 2, &mut out);
    encode_request(&Request::Clos { file: 0 }, 2, &mut out);
    let mut expect = Vec::new();
    expect.extend_from_slice(b"SEEN");
    expect.extend_from_slice(&2u32.to_le_bytes());
    expect.extend_from_slice(&0i32.to_le_bytes());
    expect.extend_from_slice(&13u32.to_le_bytes());
    expect.extend_from_slice(b"CLOS");
    expect.extend_from_slice(&2u32.to_le_bytes());
    expect.extend_from_slice(&0i32.to_le_bytes());
    assert_eq!(out, expect);
}

#[test]
fn negative_file_ids_encode_in_twos_complement() {
    let mut out = Vec::new();
    encode_request(&Request::Writ { file: -1, pos: 0, data: b"x".to_vec() }, 0, &mut out);
    let mut expect = Vec::new();
    expect.extend_from_slice(b"WRIT");
    expect.extend_from_slice(&0u32.to_le_bytes());
    expect.extend_from_slice(&(-1i32).to_le_bytes());
    expect.extend_from_slice(&0u32.to_le_bytes());
    expect.extend_from_slice(&1u32.to_le_bytes());
    expect.extend_from_slice(b"x");
    assert_eq!(out, expect);
}

#[test]
fn back_request_carries_both_pids_and_the_exit_code() {
    let mut out = Vec::new();
    encode_request(&Request::Back { ppid: 41, cpid: 42, exit: 0 }, 9, &mut out);
    let mut expect = Vec::new();
    expect.extend_from_slice(b"BACK");
    expect.extend_from_slice(&9u32.to_le_bytes());
    expect.extend_from_slice(&41i32.to_le_bytes());
    expect.extend_from_slice(&42i32.to_le_bytes());
    expect.extend_from_slice(&0u32.to_le_bytes());
    assert_eq!(out, expect);
}

#[test]
fn spic_request_carries_the_raw_bound_bits() {
    let bounds = [1.5f32.to_bits(), 0.0f32.to_bits(), 100.25f32.to_bits(), (-2.0f32).to_bits()];
    let req = Request::Spic { path: String::from("fig.png"), typ: 1, page: 2, bounds };
    let mut out = Vec::new();
    encode_request(&req, 0, &mut out);
    let mut expect = Vec::new();
    expect.extend_from_slice(b"SPIC");
    expect.extend_from_slice(&0u32.to_le_bytes());
    expect.extend_from_slice(b"fig.png\0");
    expect.extend_from_slice(&1i32.to_le_bytes());
    expect.extend_from_slice(&2i32.to_le_bytes());
    expect.extend_from_slice(&1.5f32.to_le_bytes());
    expect.extend_from_slice(&0.0f32.to_le_bytes());
    expect.extend_from_slice(&100.25f32.to_le_bytes());
    expect.extend_from_slice(&(-2.0f32).to_le_bytes());
    assert_eq!(out, expect);
}

#[test]
fn gpic_request_frames_path_type_page() {
    let req = Request::Gpic { path: String::from("fig.png"), typ: 1, page: 0 };
    let mut out = Vec::new();
    encode_request(&req, 3, &mut out);
    let mut expect = Vec::new();
    expect.extend_from_slice(b"GPIC");
    expect.extend_from_slice(&3u32.to_le_bytes());
    expect.extend_from_slice(b"fig.png\0");
    expect.extend_from_slice(&1i32.to_le_bytes());
    expect.extend_from_slice(&0i32.to_le_bytes());
    assert_eq!(out, expect);
}

#[test]
fn accs_and_stat_requests_frame_their_fields() {
    let mut out = Vec::new();
    encode_request(&Request::Accs { path: String::from("a.tex"), mode: 5 }, 0, &mut out);
    encode_request(&Request::Stat { path: String::from("b.tex") }, 0, &mut out);
    let mut expect = Vec::new();
    expect.extend_from_slice(b"ACCS");
    expect.extend_from_slice(&0u32.to_le_bytes());
    expect.extend_from_slice(b"a.tex\0");
    expect.extend_from_slice(&5u32.to_le_bytes());
    expect.extend_from_slice(b"STAT");
    expect.extend_from_slice(&0u32.to_le_bytes());
    expect.extend_from_slice(b"b.tex\0");
    assert_eq!(out, expect);
}

#[test]
fn decode_u32_and_u64_read_little_endian() {
    assert_eq!(decode_u32(&0xDEADBEEFu32.to_le_bytes()), 0xDEADBEEF);
    assert_eq!(decode_u64(&0x1122334455667788u64.to_le_bytes()), 0x1122334455667788);
}

#[test]
fn fmt_tag_yields_the_tag_characters() {
    assert_eq!(fmt_tag(b"DONE"), ['D', 'O', 'N', 'E']);
}

#[test]
fn classify_tag_knows_every_reply_tag() {
    assert_eq!(classify_tag(TAG_DONE), TagKind::Done);
    assert_eq!(classify_tag(TAG_PASS), TagKind::Pass);
    assert_eq!(classify_tag(TAG_OPEN), TagKind::Open);
    assert_eq!(classify_tag(TAG_READ), TagKind::Read);
    assert_eq!(classify_tag(TAG_FORK), TagKind::Fork);
    assert_eq!(classify_tag(TAG_SIZE), TagKind::Size);
    assert_eq!(classify_tag(TAG_ACCS), TagKind::Accs);
    assert_eq!(classify_tag(TAG_STAT), TagKind::Stat);
    assert_eq!(classify_tag(TAG_GPIC), TagKind::Gpic);
    assert_eq!(classify_tag(TAG_FLSH), TagKind::Flsh);
    assert_eq!(classify_tag(TAG_TERM), TagKind::Term);
    assert_eq!(classify_tag(u32::from_le_bytes(*b"XXXX")), TagKind::Unknown);
}

#[test]
fn reply_slots_accept_only_their_tags() {
    assert_eq!(open_reply(TagKind::Pass), OpenReply::Pass);
    assert_eq!(open_reply(TagKind::Open), OpenReply::Path);
    assert_eq!(open_reply(TagKind::Done), OpenReply::Violation);
    assert_eq!(read_reply(TagKind::Fork), ReadReply::Fork);
    assert_eq!(read_reply(TagKind::Read), ReadReply::Data);
    assert_eq!(read_reply(TagKind::Size), ReadReply::Violation);
    assert!(done_reply(TagKind::Done));
    assert!(!done_reply(TagKind::Pass));
    assert!(size_reply(TagKind::Size));
    assert!(!size_reply(TagKind::Done));
    assert_eq!(gpic_reply(TagKind::Pass), GpicReply::Pass);
    assert_eq!(gpic_reply(TagKind::Gpic), GpicReply::Bounds);
    assert_eq!(gpic_reply(TagKind::Read), GpicReply::Violation);
    assert_eq!(back_reply(TagKind::Done), Some(true));
    assert_eq!(back_reply(TagKind::Pass), Some(false));
    assert_eq!(back_reply(TagKind::Fork), None);
}

#[test]
fn accs_codes_map_to_their_results() {
    assert!(matches!(accs_code(0), Some(AccessResult::Pass)));
    assert!(matches!(accs_code(1), Some(AccessResult::Granted)));
    assert!(matches!(accs_code(2), Some(AccessResult::ENoEnt)));
    assert!(matches!(accs_code(3), Some(AccessResult::EAccess)));
    assert!(accs_code(4).is_none());
}

#[test]
fn stat_codes_distinguish_known_from_unknown() {
    assert_eq!(stat_code(1), Some(true));
    assert_eq!(stat_code(0), Some(false));
    assert_eq!(stat_code(2), None);
}

#[test]
fn stat_payload_decodes_its_sixteen_fields() {
    let mut b = Vec::new();
    for i in 0..16u32 {
        b.extend_from_slice(&(i * 100 + 1).to_le_bytes());
    }
    let f = decode_stat(&b);
    assert_eq!(f.dev, 1);
    assert_eq!(f.ino, 101);
    assert_eq!(f.mode, 201);
    assert_eq!(f.nlink, 301);
    assert_eq!(f.uid, 401);
    assert_eq!(f.gid, 501);
    assert_eq!(f.rdev, 601);
    assert_eq!(f.size, 701);
    assert_eq!(f.blksize, 801);
    assert_eq!(f.blocks, 901);
    assert_eq!(f.atime, 1001);
    assert_eq!(f.atime_ns, 1101);
    assert_eq!(f.ctime, 1201);
    assert_eq!(f.ctime_ns, 1301);
    assert_eq!(f.mtime, 1401);
    assert_eq!(f.mtime_ns, 1501);
}

#[test]
fn term_addresses_one_process() {
    assert!(term_matches(42, 42));
    assert!(!term_matches(42, 43));
}
