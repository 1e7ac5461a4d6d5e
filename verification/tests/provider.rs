use texpresso::client::{Client, ClientIO};
use texpresso::io::{
    InputOpenStart, SeekFrom, TexpressoIO, TexpressoIOState, TexpressoStdout, TexpressoWriter,
};
use texpresso::wire::Request;

fn fresh_state() -> TexpressoIOState {
    TexpressoIOState::new(Client::new(ClientIO::new()))
}

#[test]
fn open_read_seen_close_round_trip() {
    let mut io = fresh_state();
    let (id, requests) = match io.input_open_name("main.tex") {
        InputOpenStart::Query { id, requests } => (id, requests),
        InputOpenStart::NotAvailable => panic!("latch should be empty"),
    };
    assert_eq!(id, 0);
    assert_eq!(
        requests,
        vec![Request::Open { file: 0, path: String::from("main.tex"), mode: String::from("r?") }]
    );
    let mut reader = io.input_open_finish("main.tex", id, false).expect("open succeeded");
    let requests = reader.read_prepare(&mut io).expect("buffer starts empty");
    assert_eq!(requests, vec![Request::Read { file: 0, pos: 0, max: 1024 }]);
    reader.refill(b"Hello, world!");
    let (bytes, seen) = reader.consume(&mut io, 1024);
    assert_eq!(bytes, b"Hello, world!".to_vec());
    assert!(seen.is_empty());
    let out = io.close_file(id);
    assert_eq!(
        out,
        vec![Request::Seen { file: 0, pos: 13 }, Request::Clos { file: 0 }]
    );
}

#[test]
fn reads_continue_at_the_logical_position() {
    let mut io = fresh_state();
    let id = match io.input_open_name("a.tex") {
        InputOpenStart::Query { id, .. } => id,
        InputOpenStart::NotAvailable => panic!(),
    };
    let mut reader = io.input_open_finish("a.tex", id, false).unwrap();
    reader.read_prepare(&mut io).expect("first read consults the wire");
    reader.refill(b"abcdef");
    let (bytes, _) = reader.consume(&mut io, 4);
    assert_eq!(bytes, b"abcd".to_vec());
    assert!(reader.read_prepare(&mut io).is_none());
    let (bytes, _) = reader.consume(&mut io, 4);
    assert_eq!(bytes, b"ef".to_vec());
    let requests = reader.read_prepare(&mut io).expect("buffer exhausted");
    assert_eq!(
        requests,
        vec![
            Request::Seen { file: id, pos: 6 },
            Request::Read { file: id, pos: 6, max: 1024 },
        ]
    );
}

#[test]
fn a_generation_bump_forces_a_fresh_read_at_the_same_position() {
    let mut io = fresh_state();
    let id = match io.input_open_name("a.tex") {
        InputOpenStart::Query { id, .. } => id,
        InputOpenStart::NotAvailable => panic!(),
    };
    let mut reader = io.input_open_finish("a.tex", id, false).unwrap();
    reader.read_prepare(&mut io).unwrap();
    reader.refill(b"abcdef");
    let (bytes, _) = reader.consume(&mut io, 3);
    assert_eq!(bytes, b"abc".to_vec());
    io.client.bump_generation();
    let requests = reader.read_prepare(&mut io).expect("stale buffer is dropped");
    assert_eq!(
        requests,
        vec![
            Request::Seen { file: id, pos: 3 },
            Request::Read { file: id, pos: 3, max: 1024 },
        ]
    );
}

#[test]
fn a_declined_name_is_latched_until_another_open_succeeds() {
    let mut io = fresh_state();
    let id = match io.input_open_name("missing.tex") {
        InputOpenStart::Query { id, .. } => id,
        InputOpenStart::NotAvailable => panic!(),
    };
    assert!(io.input_open_finish("missing.tex", id, true).is_none());
    match io.input_open_name("missing.tex") {
        InputOpenStart::NotAvailable => {},
        InputOpenStart::Query { .. } => panic!("latched name must not reach the wire"),
    }
    let id = match io.input_open_name("other.tex") {
        InputOpenStart::Query { id, .. } => id,
        InputOpenStart::NotAvailable => panic!(),
    };
    assert!(io.input_open_finish("other.tex", id, false).is_some());
    match io.input_open_name("missing.tex") {
        InputOpenStart::Query { .. } => {},
        InputOpenStart::NotAvailable => panic!("a successful open clears the latch"),
    }
}

#[test]
fn file_ids_are_reused_from_the_free_list() {
    let mut io = fresh_state();
    let a = io.alloc_id();
    let b = io.alloc_id();
    let c = io.alloc_id();
    assert_eq!((a, b, c), (0, 1, 2));
    io.release_id(1);
    assert_eq!(io.alloc_id(), 1);
    assert_eq!(io.alloc_id(), 3);
}

#[test]
fn a_declined_output_open_releases_its_id() {
    let mut io = fresh_state();
    let start = io.output_open_name("out.pdf");
    assert_eq!(start.id, 0);
    assert_eq!(
        start.requests,
        vec![Request::Open { file: 0, path: String::from("out.pdf"), mode: String::from("w") }]
    );
    assert!(io.output_open_finish(start.id, true).is_none());
    let start = io.output_open_name("other.pdf");
    assert_eq!(start.id, 0);
}

#[test]
fn writer_advances_its_position_and_coalesces() {
    let mut io = fresh_state();
    let start = io.output_open_name("out.pdf");
    let mut w: TexpressoWriter = io.output_open_finish(start.id, false).unwrap();
    assert!(w.write(&mut io, b"abc").is_empty());
    assert!(w.write(&mut io, b"de").is_empty());
    let out = w.flush(&mut io);
    assert_eq!(out, vec![Request::Writ { file: start.id, pos: 0, data: b"abcde".to_vec() }]);
}

#[test]
fn stdout_writes_address_file_minus_one() {
    let mut io = fresh_state();
    let sink = TexpressoStdout;
    assert!(sink.write(&mut io, b"note: hi\n").is_empty());
    let out = sink.flush(&mut io);
    assert_eq!(
        out,
        vec![Request::Writ { file: -1, pos: 0, data: b"note: hi\n".to_vec() }]
    );
}

#[test]
fn seek_rejects_targets_outside_the_file() {
    let mut io = fresh_state();
    let id = match io.input_open_name("a.tex") {
        InputOpenStart::Query { id, .. } => id,
        InputOpenStart::NotAvailable => panic!(),
    };
    let mut reader = io.input_open_finish("a.tex", id, false).unwrap();
    assert_eq!(reader.try_seek(SeekFrom::Start(50), 100), Ok(50));
    assert!(reader.try_seek(SeekFrom::Start(101), 100).is_err());
    assert_eq!(reader.try_seek(SeekFrom::Current(-20), 100), Ok(30));
    assert!(reader.try_seek(SeekFrom::Current(-31), 100).is_err());
    assert_eq!(reader.try_seek(SeekFrom::End(10), 100), Ok(90));
    assert!(reader.try_seek(SeekFrom::End(-1), 100).is_err());
    assert!(reader.try_seek(SeekFrom::End(101), 100).is_err());
    assert_eq!(reader.try_seek(SeekFrom::End(100), 100), Ok(0));
}

#[test]
fn seek_drops_the_local_buffer() {
    let mut io = fresh_state();
    let id = match io.input_open_name("a.tex") {
        InputOpenStart::Query { id, .. } => id,
        InputOpenStart::NotAvailable => panic!(),
    };
    let mut reader = io.input_open_finish("a.tex", id, false).unwrap();
    reader.read_prepare(&mut io).unwrap();
    reader.refill(b"abcdef");
    assert_eq!(reader.try_seek(SeekFrom::Start(2), 6), Ok(2));
    let requests = reader.read_prepare(&mut io).expect("buffer was dropped");
    assert_eq!(requests, vec![Request::Read { file: id, pos: 2, max: 1024 }]);
}

#[test]
fn sizes_are_memoized_on_the_reader() {
    let mut io = fresh_state();
    let id = match io.input_open_name("a.tex") {
        InputOpenStart::Query { id, .. } => id,
        InputOpenStart::NotAvailable => panic!(),
    };
    let mut reader = io.input_open_finish("a.tex", id, false).unwrap();
    assert_eq!(reader.cached_size(), None);
    let out = io.client.size(id);
    assert_eq!(out, vec![Request::Size { file: id }]);
    reader.set_size(4096);
    assert_eq!(reader.cached_size(), Some(4096));
}

#[test]
fn provider_handle_threads_the_shared_state() {
    let mut io = TexpressoIO::new(Client::new(ClientIO::new()), "main.tex");
    match io.input_open_primary() {
        InputOpenStart::Query { id, requests } => {
            assert_eq!(id, 0);
            assert_eq!(
                requests,
                vec![Request::Open {
                    file: 0,
                    path: String::from("main.tex"),
                    mode: String::from("r?"),
                }]
            );
        },
        InputOpenStart::NotAvailable => panic!(),
    }
    let state = io.borrow_mut();
    state.release_id(0);
    let (start, hint) = io.input_open_name_with_abspath("ch1.tex");
    assert_eq!(hint, String::from("ch1.tex"));
    match start {
        InputOpenStart::Query { .. } => {},
        InputOpenStart::NotAvailable => panic!(),
    }
    let (_, hint) = io.input_open_primary_with_abspath();
    assert_eq!(hint, String::from("main.tex"));
    match io.input_open_format() {
        InputOpenStart::NotAvailable => {},
        InputOpenStart::Query { .. } => panic!("format files come from the fallback bundle"),
    }
    assert!(io.output_open_stdout().is_none());
}

#[test]
fn a_latched_name_needs_no_file_id() {
    let mut io = fresh_state();
    let id = match io.input_open_name("missing.tex") {
        InputOpenStart::Query { id, .. } => id,
        InputOpenStart::NotAvailable => panic!(),
    };
    assert!(io.input_open_finish("missing.tex", id, true).is_none());
    while io.can_alloc() {
        io.alloc_id();
    }
    assert!(io.is_latched("missing.tex"));
    assert!(!io.is_latched("other.tex"));
    match io.input_open_name("missing.tex") {
        InputOpenStart::NotAvailable => {}
        InputOpenStart::Query { .. } => panic!("a latched name must not allocate"),
    }
}
