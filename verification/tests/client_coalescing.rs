use texpresso::client::{delta_carry, stamp_from, Client, ClientIO};
use texpresso::wire::{Request, TagKind, TAG_FLSH, TAG_READ};

fn fresh_client() -> Client {
    Client::new(ClientIO::new())
}

#[test]
fn contiguous_writes_stay_buffered_until_a_request_flushes_them() {
    let mut c = fresh_client();
    let none = c.write(3, 0, b"abc");
    assert!(none.is_empty());
    let none = c.write(3, 3, b"de");
    assert!(none.is_empty());
    let out = c.size(3);
    assert_eq!(
        out,
        vec![
            Request::Writ { file: 3, pos: 0, data: b"abcde".to_vec() },
            Request::Size { file: 3 },
        ]
    );
}

#[test]
fn non_contiguous_write_flushes_the_pending_run() {
    let mut c = fresh_client();
    assert!(c.write(3, 0, b"ab").is_empty());
    let out = c.write(3, 10, b"cd");
    assert_eq!(out, vec![Request::Writ { file: 3, pos: 0, data: b"ab".to_vec() }]);
    let out = c.flush();
    assert_eq!(out, vec![Request::Writ { file: 3, pos: 10, data: b"cd".to_vec() }]);
}

#[test]
fn a_write_to_another_file_flushes_the_pending_run() {
    let mut c = fresh_client();
    assert!(c.write(3, 0, b"ab").is_empty());
    let out = c.write(4, 2, b"cd");
    assert_eq!(out, vec![Request::Writ { file: 3, pos: 0, data: b"ab".to_vec() }]);
    let out = c.flush();
    assert_eq!(out, vec![Request::Writ { file: 4, pos: 2, data: b"cd".to_vec() }]);
}

#[test]
fn an_overflowing_run_goes_out_as_one_merged_frame() {
    let mut c = fresh_client();
    let first = vec![7u8; 4000];
    let second = vec![9u8; 200];
    assert!(c.write(1, 0, &first).is_empty());
    let out = c.write(1, 4000, &second);
    let mut merged = first.clone();
    merged.extend_from_slice(&second);
    assert_eq!(out, vec![Request::Writ { file: 1, pos: 0, data: merged }]);
    assert!(c.flush().is_empty());
}

#[test]
fn a_single_oversized_write_goes_straight_out() {
    let mut c = fresh_client();
    let big = vec![1u8; 5000];
    let out = c.write(2, 7, &big);
    assert_eq!(out, vec![Request::Writ { file: 2, pos: 7, data: big.clone() }]);
    assert!(c.flush().is_empty());
}

#[test]
fn open_write_write_close_emits_open_one_writ_clos() {
    let mut c = fresh_client();
    let out = c.open(5, "out.pdf", "w");
    assert_eq!(
        out,
        vec![Request::Open { file: 5, path: String::from("out.pdf"), mode: String::from("w") }]
    );
    assert!(c.write(5, 0, b"hello ").is_empty());
    assert!(c.write(5, 6, b"world").is_empty());
    let out = c.close(5);
    assert_eq!(
        out,
        vec![
            Request::Writ { file: 5, pos: 0, data: b"hello world".to_vec() },
            Request::Clos { file: 5 },
        ]
    );
}

#[test]
fn seen_marks_for_one_file_keep_the_high_water_mark() {
    let mut c = fresh_client();
    assert!(c.seen(7, 3).is_empty());
    assert!(c.seen(7, 9).is_empty());
    let out = c.flush();
    assert_eq!(out, vec![Request::Seen { file: 7, pos: 9 }]);
}

#[test]
fn a_lower_seen_mark_is_ignored() {
    let mut c = fresh_client();
    assert!(c.seen(7, 9).is_empty());
    assert!(c.seen(7, 3).is_empty());
    let out = c.flush();
    assert_eq!(out, vec![Request::Seen { file: 7, pos: 9 }]);
}

#[test]
fn seen_for_another_file_emits_the_first_and_latches_the_second() {
    let mut c = fresh_client();
    assert!(c.seen(1, 10).is_empty());
    let out = c.seen(2, 5);
    assert_eq!(out, vec![Request::Seen { file: 1, pos: 10 }]);
    let out = c.flush();
    assert_eq!(out, vec![Request::Seen { file: 2, pos: 5 }]);
}

#[test]
fn flush_emits_seen_before_writ() {
    let mut c = fresh_client();
    assert!(c.seen(1, 5).is_empty());
    assert!(c.write(1, 0, b"xy").is_empty());
    let out = c.flush();
    assert_eq!(
        out,
        vec![
            Request::Seen { file: 1, pos: 5 },
            Request::Writ { file: 1, pos: 0, data: b"xy".to_vec() },
        ]
    );
}

#[test]
fn pending_frames_precede_any_other_request() {
    let mut c = fresh_client();
    assert!(c.seen(1, 5).is_empty());
    assert!(c.write(1, 0, b"xy").is_empty());
    let out = c.stat("main.tex");
    assert_eq!(
        out,
        vec![
            Request::Seen { file: 1, pos: 5 },
            Request::Writ { file: 1, pos: 0, data: b"xy".to_vec() },
            Request::Stat { path: String::from("main.tex") },
        ]
    );
    assert!(c.flush().is_empty());
}

#[test]
fn fork_preparation_bumps_the_generation_with_empty_buffers() {
    let mut c = fresh_client();
    assert!(c.seen(0, 13).is_empty());
    let g = c.generation();
    let (out, carry) = c.fork_prepare();
    assert_eq!(out, vec![Request::Seen { file: 0, pos: 13 }]);
    assert_eq!(c.generation(), g + 1);
    c.fork_child_commit(carry);
    assert_eq!(c.generation(), g + 1);
    let child = c.child(4242);
    assert_eq!(child, vec![Request::Chld { pid: 4242 }]);
    let back = c.back(4241, 4242, 0);
    assert_eq!(back, vec![Request::Back { ppid: 4241, cpid: 4242, exit: 0 }]);
}

#[test]
fn flsh_control_tags_bump_the_generation_and_ask_for_another_tag() {
    let mut c = fresh_client();
    let g = c.generation();
    assert_eq!(c.recv_tag_step(TAG_FLSH), None);
    assert_eq!(c.generation(), g + 1);
    assert_eq!(c.recv_tag_step(TAG_READ), Some(TagKind::Read));
    assert_eq!(c.generation(), g + 1);
}

#[test]
fn stamps_never_decrease_within_one_process() {
    let io = ClientIO::new();
    let s1 = io.stamp();
    let s2 = io.stamp();
    assert!(s1 <= s2);
}

#[test]
fn gpic_and_spic_requests_flush_first() {
    let mut c = fresh_client();
    assert!(c.write(1, 0, b"z").is_empty());
    let out = c.gpic("fig.png", 1, 2);
    assert_eq!(
        out,
        vec![
            Request::Writ { file: 1, pos: 0, data: b"z".to_vec() },
            Request::Gpic { path: String::from("fig.png"), typ: 1, page: 2 },
        ]
    );
    let bounds = [0u32, 1, 2, 3];
    let out = c.spic("fig.png", 1, 2, &bounds);
    assert_eq!(
        out,
        vec![Request::Spic { path: String::from("fig.png"), typ: 1, page: 2, bounds }]
    );
}

#[test]
fn accs_request_flushes_first() {
    let mut c = fresh_client();
    assert!(c.seen(9, 1).is_empty());
    let out = c.accs("a.tex", 1);
    assert_eq!(
        out,
        vec![
            Request::Seen { file: 9, pos: 1 },
            Request::Accs { path: String::from("a.tex"), mode: 1 },
        ]
    );
}

#[test]
fn a_write_of_exactly_the_buffer_capacity_stays_pending() {
    let mut c = fresh_client();
    let exact = vec![5u8; 4096];
    assert!(c.write(1, 0, &exact).is_empty());
    let out = c.flush();
    assert_eq!(out, vec![Request::Writ { file: 1, pos: 0, data: exact }]);
}

#[test]
fn one_byte_over_the_capacity_goes_out_merged() {
    let mut c = fresh_client();
    let first = vec![5u8; 4096];
    assert!(c.write(1, 0, &first).is_empty());
    let out = c.write(1, 4096, b"x");
    let mut merged = first;
    merged.push(b'x');
    assert_eq!(out, vec![Request::Writ { file: 1, pos: 0, data: merged }]);
}

#[test]
fn an_empty_write_emits_and_latches_nothing() {
    let mut c = fresh_client();
    assert!(c.write(3, 0, b"").is_empty());
    assert!(c.flush().is_empty());
}

#[test]
fn a_seen_mark_at_position_zero_is_not_pending() {
    let mut c = fresh_client();
    assert!(c.seen(4, 0).is_empty());
    assert!(c.flush().is_empty());
}

#[test]
fn string_equality_compares_characters() {
    assert!(texpresso::str_eq("main.tex", "main.tex"));
    assert!(!texpresso::str_eq("main.tex", "main.te"));
    assert!(!texpresso::str_eq("main.tex", "main.tfx"));
    assert!(texpresso::str_eq("", ""));
}

#[test]
fn stamps_truncate_the_millisecond_sum_to_32_bits() {
    assert_eq!(stamp_from(0, 0), 0);
    assert_eq!(stamp_from(1, 2), 3);
    assert_eq!(stamp_from(0xFFFF_FFFF, 1), 0);
    assert_eq!(stamp_from(0x1_0000_0005, 3), 8);
}

#[test]
fn the_fork_carry_saturates_instead_of_wrapping() {
    assert_eq!(delta_carry(10, 5), 15);
    assert_eq!(delta_carry(u64::MAX - 1, 5), u64::MAX);
    assert_eq!(delta_carry(u64::MAX, 0), u64::MAX);
}
