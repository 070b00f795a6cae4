//! A dump call run end to end against a stand-in for the remote service: a
//! real pipe, with this library deciding every step. The stand-in takes its
//! turn between two reads, a piece at a time, and closes its end of the pipe
//! when it has written everything.

use std::io::{Read, Write};

use dumpsys_rs::args::{borrowed_args, owned_args};
use dumpsys_rs::{Capture, DumpError, Dumpsys, StatusCode};

/// What the stand-in service does when asked to dump.
#[derive(Clone)]
struct FakeService {
    payload: Vec<u8>,
    status: Result<(), StatusCode>,
    expect_args: Vec<String>,
}

/// Runs one dump call the way a platform caller does.
fn dump(dumper: &Dumpsys<FakeService>, args: &[&str]) -> Result<String, DumpError> {
    let (mut read, write) = os_pipe::pipe().map_err(DumpError::from)?;
    let service = dumper.service().clone();
    let args = owned_args(args);
    let passed = borrowed_args(&args);
    assert_eq!(passed, service.expect_args);

    let mut pending: &[u8] = &service.payload;
    let mut write = Some(write);
    let mut capture = Capture::new();
    let mut chunk = [0u8; 4096];
    let drained = loop {
        if pending.is_empty() {
            write = None;
        } else if let Some(out) = write.as_mut() {
            let n = pending.len().min(1500);
            out.write_all(&pending[..n]).unwrap();
            pending = &pending[n..];
        }
        match read.read(&mut chunk) {
            Ok(n) => {
                if !capture.feed(&chunk[..n]) {
                    break Ok(());
                }
            }
            Err(err) => break Err(err),
        }
    };
    drop(read);
    capture.finish(drained, service.status)
}

fn service(payload: &[u8], status: Result<(), StatusCode>, args: &[&str]) -> Dumpsys<FakeService> {
    let fake = FakeService {
        payload: payload.to_vec(),
        status,
        expect_args: args.iter().map(|s| s.to_string()).collect(),
    };
    Dumpsys::new(Some(fake)).unwrap()
}

#[test]
fn dump_returns_what_the_service_wrote() {
    let dumper = service(b"hello\n", Ok(()), &["--latency"]);
    assert_eq!(dump(&dumper, &["--latency"]).unwrap(), "hello\n");
}

#[test]
fn dump_of_a_silent_service_is_empty_text() {
    let dumper = service(b"", Ok(()), &[]);
    assert_eq!(dump(&dumper, &[]).unwrap(), "");
}

#[test]
fn dump_returns_a_large_payload_whole() {
    let mut payload = Vec::with_capacity(10 * 1024 * 1024);
    let mut i: usize = 0;
    while payload.len() < 10 * 1024 * 1024 {
        payload.push(b'a' + (i % 26) as u8);
        i += 1;
    }
    let dumper = service(&payload, Ok(()), &["--all"]);
    let text = dump(&dumper, &["--all"]).unwrap();
    assert_eq!(text.len(), 10 * 1024 * 1024);
    assert_eq!(text.as_bytes(), &payload[..]);
}

#[test]
fn dump_fails_with_the_remote_status_after_partial_output() {
    let status = StatusCode { code: -38 };
    let dumper = service(b"partial out", Err(status), &["-x"]);
    match dump(&dumper, &["-x"]) {
        Err(DumpError::Remote(got)) => assert_eq!(got, status),
        other => panic!("expected a remote failure, got {:?}", other),
    }
}

#[test]
fn dump_can_be_repeated_on_one_handle() {
    let dumper = service("état: ok\n".as_bytes(), Ok(()), &["a", "b"]);
    let mut round: u32 = 0;
    while round < 10_000 {
        assert_eq!(dump(&dumper, &["a", "b"]).unwrap(), "état: ok\n");
        round += 1;
    }
}

#[test]
fn dump_replaces_bytes_that_are_not_text() {
    let dumper = service(&[b'o', b'k', 0xff, b'!'], Ok(()), &[]);
    assert_eq!(dump(&dumper, &[]).unwrap(), "ok\u{fffd}!");
}
