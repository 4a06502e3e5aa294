use ferric::request::{
    decide, ParseStatus, ParsedRequest, ReadStep, RequestReader, MAX_HEADERS, MAX_REQUEST_BYTES,
    READ_CHUNK_BYTES,
};

fn ready_path(step: ReadStep) -> Option<String> {
    match step {
        ReadStep::Ready { path } => Some(path),
        _ => None,
    }
}

#[test]
fn complete_request_is_ready_with_its_path() {
    let mut reader = RequestReader::new();
    let step = reader.feed(b"GET /index.html HTTP/1.1\r\nHost: localhost\r\n\r\n");
    assert_eq!(ready_path(step), Some("/index.html".to_string()));
    assert_eq!(reader.buffered(), 45);
}

#[test]
fn request_split_over_chunks_is_reassembled() {
    let mut reader = RequestReader::new();
    assert!(matches!(reader.feed(b"GET /abo"), ReadStep::NeedMore));
    assert!(matches!(reader.feed(b"ut-us HTTP/1.1\r\nHo"), ReadStep::NeedMore));
    let step = reader.feed(b"st: a\r\n\r\n");
    assert_eq!(ready_path(step), Some("/about-us".to_string()));
}

#[test]
fn incomplete_request_at_end_of_stream_is_rejected() {
    let mut reader = RequestReader::new();
    assert!(matches!(reader.feed(b"GET /index.html HTTP/1.1\r\nHost"), ReadStep::NeedMore));
    assert!(matches!(reader.feed(b""), ReadStep::Reject));
}

#[test]
fn empty_stream_is_rejected() {
    let mut reader = RequestReader::new();
    assert!(matches!(reader.feed(b""), ReadStep::Reject));
    assert_eq!(reader.buffered(), 0);
}

#[test]
fn malformed_request_is_rejected() {
    let mut reader = RequestReader::new();
    assert!(matches!(reader.feed(b"GET / HTTP/3.0\r\n\r\n"), ReadStep::Reject));
    let mut reader = RequestReader::new();
    assert!(matches!(reader.feed(b"G\x01T / HTTP/1.1\r\n\r\n"), ReadStep::Reject));
}

fn request_with_headers(count: usize) -> Vec<u8> {
    let mut text = String::from("GET / HTTP/1.1\r\n");
    for i in 0..count {
        text.push_str(&format!("X-H{}: v\r\n", i));
    }
    text.push_str("\r\n");
    text.into_bytes()
}

#[test]
fn header_limit_is_enforced() {
    let mut reader = RequestReader::new();
    let step = reader.feed(&request_with_headers(MAX_HEADERS));
    assert_eq!(ready_path(step), Some("/".to_string()));
    let mut reader = RequestReader::new();
    assert!(matches!(reader.feed(&request_with_headers(MAX_HEADERS + 1)), ReadStep::Reject));
}

#[test]
fn oversized_incomplete_request_is_rejected() {
    let mut reader = RequestReader::new();
    let mut chunk = vec![b'a'; READ_CHUNK_BYTES];
    chunk[..5].copy_from_slice(b"GET /");
    let filler = vec![b'a'; READ_CHUNK_BYTES];
    assert!(matches!(reader.feed(&chunk), ReadStep::NeedMore));
    let chunks = MAX_REQUEST_BYTES / READ_CHUNK_BYTES;
    for _ in 2..chunks {
        assert!(matches!(reader.feed(&filler), ReadStep::NeedMore));
    }
    assert!(matches!(reader.feed(&filler), ReadStep::Reject));
    assert_eq!(reader.buffered(), MAX_REQUEST_BYTES);
}

#[test]
fn decide_follows_the_parse_report() {
    let report = |status, path: Option<&str>| ParsedRequest { status, path: path.map(String::from) };
    let step = decide(report(ParseStatus::Complete, Some("/x")), false, 10);
    assert_eq!(ready_path(step), Some("/x".to_string()));
    let step = decide(report(ParseStatus::Complete, Some("/x")), true, MAX_REQUEST_BYTES + 1);
    assert_eq!(ready_path(step), Some("/x".to_string()));
    assert!(matches!(decide(report(ParseStatus::Complete, None), false, 10), ReadStep::Reject));
    assert!(matches!(decide(report(ParseStatus::Partial, None), false, 10), ReadStep::NeedMore));
    assert!(matches!(
        decide(report(ParseStatus::Partial, Some("/x")), false, MAX_REQUEST_BYTES - 1),
        ReadStep::NeedMore
    ));
    assert!(matches!(
        decide(report(ParseStatus::Partial, Some("/x")), false, MAX_REQUEST_BYTES),
        ReadStep::Reject
    ));
    assert!(matches!(decide(report(ParseStatus::Partial, None), true, 0), ReadStep::Reject));
    assert!(matches!(decide(report(ParseStatus::Malformed, None), false, 10), ReadStep::Reject));
    assert!(matches!(
        decide(report(ParseStatus::Malformed, Some("/x")), false, 10),
        ReadStep::Reject
    ));
}
