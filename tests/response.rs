use idcurl::{ExecuteStep, Kind, Phase, Pump, ReadStep, ResponseData};
use idcurl::response::text_from_bytes;

/// Feeds a header block and runs the execute loop over scripted pump outcomes.
fn execute(rd: &mut ResponseData, steps: &[Pump]) -> Result<(), idcurl::Error> {
    for p in steps {
        match rd.execute_step(*p) {
            ExecuteStep::Pump => continue,
            ExecuteStep::Ready => return Ok(()),
            ExecuteStep::Failed(e) => return Err(e),
        }
    }
    panic!("execution did not finish");
}

/// Reads into a buffer of `room` bytes, as a stream read does, pumping from
/// `pumps` when the queue runs dry. Each pump may deliver a chunk first.
fn read(
    rd: &mut ResponseData,
    room: usize,
    pumps: &mut Vec<(Vec<u8>, Pump)>,
) -> Result<Vec<u8>, idcurl::Error> {
    let mut out = Vec::new();
    loop {
        match rd.read_step(room - out.len()) {
            ReadStep::Done => return Ok(out),
            ReadStep::Bytes(b) => out.extend_from_slice(&b),
            ReadStep::Pump => {
                assert!(!pumps.is_empty(), "read pumped after the script ended");
                let (chunk, p) = pumps.remove(0);
                rd.on_body(&chunk);
                rd.on_pump(p)?;
            }
        }
    }
}

fn read_to_end(
    rd: &mut ResponseData,
    pumps: &mut Vec<(Vec<u8>, Pump)>,
) -> Result<Vec<u8>, idcurl::Error> {
    let mut all = Vec::new();
    loop {
        let part = read(rd, 4, pumps)?;
        if part.is_empty() {
            return Ok(all);
        }
        all.extend_from_slice(&part);
    }
}

fn headers(rd: &mut ResponseData, lines: &[&[u8]]) {
    for l in lines {
        rd.on_header_line(l);
    }
}

#[test]
fn complete_response_reads_status_and_body() {
    let mut rd = ResponseData::new();
    headers(&mut rd, &[b"HTTP/1.1 200 OK\r\n", b"Content-Length: 5\r\n", b"\r\n"]);
    rd.on_body(b"hello");
    execute(&mut rd, &[Pump::Pending]).unwrap();
    rd.latch_status(200).unwrap();
    assert_eq!(rd.status(), 200);
    assert_eq!(rd.content_length(), Some(5));
    let mut pumps = vec![(Vec::new(), Pump::Finished(0))];
    assert_eq!(read_to_end(&mut rd, &mut pumps).unwrap(), b"hello".to_vec());
    assert_eq!(rd.phase(), Phase::Completed);
}

#[test]
fn stalled_peer_still_delivers_requested_bytes() {
    let mut rd = ResponseData::new();
    headers(&mut rd, &[b"HTTP/1.1 200 OK\r\n", b"Content-Length: 5\r\n", b"\r\n"]);
    assert!(matches!(rd.execute_step(Pump::Pending), ExecuteStep::Pump));
    rd.on_body(b"hello");
    assert!(matches!(rd.execute_step(Pump::Pending), ExecuteStep::Ready));
    rd.latch_status(200).unwrap();
    // The peer stalls: no pump is scripted, so a read that pumped would panic.
    let mut pumps = Vec::new();
    assert_eq!(read(&mut rd, 5, &mut pumps).unwrap(), b"hello".to_vec());
    assert!(!rd.completed());
}

#[test]
fn short_body_surfaces_partial_file() {
    let mut rd = ResponseData::new();
    headers(&mut rd, &[b"HTTP/1.1 200 OK\r\n", b"Content-Length: 6\r\n", b"\r\n"]);
    rd.on_body(b"hello");
    execute(&mut rd, &[Pump::Pending]).unwrap();
    rd.latch_status(200).unwrap();
    let mut pumps = vec![(Vec::new(), Pump::Finished(18))];
    let e = read_to_end(&mut rd, &mut pumps).unwrap_err();
    assert_eq!(e.kind(), &Kind::PartialFile);
    assert!(rd.failed());
    assert_eq!(rd.phase(), Phase::Failed);
    // The failed stream never pumps again and reads as ended.
    assert!(matches!(rd.read_step(10), ReadStep::Done));
}

#[test]
fn refused_connection_gives_connect_and_no_response() {
    let mut rd = ResponseData::new();
    let e = execute(&mut rd, &[Pump::Pending, Pump::Finished(7)]).unwrap_err();
    assert_eq!(e.kind(), &Kind::Connect);
    assert!(e.url.is_none());
    assert!(!rd.headers_done());
}

#[test]
fn redirect_overflow_gives_too_many_redirects() {
    let mut rd = ResponseData::new();
    for _ in 0..11 {
        headers(&mut rd, &[b"HTTP/1.1 302 Found\r\n", b"Location: /next\r\n", b"\r\n"]);
    }
    let e = execute(&mut rd, &[Pump::Pending, Pump::Finished(47)]).unwrap_err();
    assert_eq!(e.kind(), &Kind::TooManyRedirects);
}

#[test]
fn invalid_utf8_body_gives_not_utf8() {
    let e = text_from_bytes(vec![0x68, 0xff, 0x69]).unwrap_err();
    assert_eq!(e.kind(), &Kind::NotUtf8);
    assert_eq!(text_from_bytes(b"hello".to_vec()).unwrap(), "hello");
    assert_eq!(text_from_bytes("h\u{e9}".as_bytes().to_vec()).unwrap(), "h\u{e9}");
    assert_eq!(text_from_bytes(Vec::new()).unwrap(), "");
}

#[test]
fn completed_empty_stream_reads_zero_without_pumping() {
    let mut rd = ResponseData::new();
    rd.on_body(b"ab");
    assert!(matches!(rd.execute_step(Pump::Finished(0)), ExecuteStep::Ready));
    rd.latch_status(204).unwrap();
    let mut pumps = Vec::new();
    assert_eq!(read(&mut rd, 10, &mut pumps).unwrap(), b"ab".to_vec());
    for _ in 0..3 {
        assert!(matches!(rd.read_step(10), ReadStep::Done));
        assert_eq!(read(&mut rd, 10, &mut pumps).unwrap(), Vec::<u8>::new());
    }
}

#[test]
fn reads_follow_delivery_order_for_any_chunking() {
    let body: Vec<u8> = (0u8..50).collect();
    for cut in [1usize, 3, 7, 50] {
        for room in [1usize, 2, 5, 64] {
            let mut rd = ResponseData::new();
            let mut chunks: Vec<(Vec<u8>, Pump)> = body
                .chunks(cut)
                .map(|c| (c.to_vec(), Pump::Pending))
                .collect();
            chunks.push((Vec::new(), Pump::Finished(0)));
            let (first, _) = chunks.remove(0);
            rd.on_body(&first);
            execute(&mut rd, &[Pump::Pending]).unwrap();
            rd.latch_status(200).unwrap();
            let mut all = Vec::new();
            loop {
                let part = read(&mut rd, room, &mut chunks).unwrap();
                if part.is_empty() {
                    break;
                }
                assert!(part.len() <= room);
                all.extend_from_slice(&part);
            }
            assert_eq!(all, body);
        }
    }
}

#[test]
fn execute_waits_for_body_or_completion() {
    let mut rd = ResponseData::new();
    headers(&mut rd, &[b"HTTP/1.1 200 OK\r\n", b"X-A: 1\r\n", b"\r\n"]);
    assert!(matches!(rd.execute_step(Pump::Pending), ExecuteStep::Pump));
    assert!(!rd.headers_done());
    assert_eq!(rd.phase(), Phase::AwaitingHeaders);
    assert!(matches!(rd.execute_step(Pump::Finished(0)), ExecuteStep::Ready));
    assert!(rd.headers_done());
    assert!(rd.completed());
    assert_eq!(rd.phase(), Phase::AwaitingHeaders);
    rd.latch_status(200).unwrap();
    assert_eq!(rd.phase(), Phase::Completed);
}

#[test]
fn headers_are_frozen_once_received() {
    let mut rd = ResponseData::new();
    assert!(rd.on_header_line(b"X-A: 1\r\n"));
    rd.on_body(b"x");
    assert!(!rd.on_header_line(b"X-A: 2\r\n"));
    assert_eq!(rd.headers().get_all(b"x-a"), vec![b"1".to_vec()]);
}

#[test]
fn chunks_after_completion_are_dropped() {
    let mut rd = ResponseData::new();
    rd.on_body(b"a");
    rd.on_pump(Pump::Finished(0)).unwrap();
    rd.on_body(b"b");
    assert_eq!(rd.queued(), 1);
}

#[test]
fn invalid_status_codes_are_rejected() {
    for bad in [0i64, 99, 1000, 65536, -1] {
        let mut rd = ResponseData::new();
        rd.on_body(b"x");
        let e = rd.latch_status(bad).unwrap_err();
        match e.kind() {
            Kind::Other(code, m) => {
                assert_eq!(*code, bad);
                assert_eq!(m, "invalid status code");
            }
            k => panic!("{:?}", k),
        }
        assert_eq!(rd.status(), 0);
    }
    let mut rd = ResponseData::new();
    rd.on_body(b"x");
    rd.latch_status(999).unwrap();
    assert_eq!(rd.status(), 999);
}

#[test]
fn content_length_is_read_from_headers() {
    let mut rd = ResponseData::new();
    assert_eq!(rd.content_length(), None);
    headers(&mut rd, &[b"content-LENGTH: 10000\r\n", b"Content-Length: 3\r\n"]);
    assert_eq!(rd.content_length(), Some(10000));
    let mut rd = ResponseData::new();
    headers(&mut rd, &[b"Content-Length: ten\r\n"]);
    assert_eq!(rd.content_length(), None);
    assert_eq!(
        rd.header(b"CONTENT-length"),
        Some(b"ten".to_vec())
    );
}

#[test]
fn engine_fault_fails_the_stream() {
    let mut rd = ResponseData::new();
    rd.on_body(b"x");
    let e = rd.on_pump(Pump::Faulted(6)).unwrap_err();
    assert_eq!(e.kind(), &Kind::ResolveHost);
    assert!(rd.completed() && rd.failed());
    // A completed stream takes no further outcome.
    assert!(rd.on_pump(Pump::Finished(7)).is_ok());
}
