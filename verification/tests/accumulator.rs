use romeo::accumulator::{find_terminator, FeedError, HeaderAccumulator, MAX_HEADER_BYTES};

#[test]
fn cap_is_64_kib() {
    assert_eq!(MAX_HEADER_BYTES, 64 * 1024);
}

#[test]
fn new_accumulator_is_empty() {
    let accumulator = HeaderAccumulator::new();
    assert!(accumulator.is_empty());
    assert_eq!(accumulator.len(), 0);
    assert_eq!(accumulator.pending(), b"");
    assert!(HeaderAccumulator::default().is_empty());
}

#[test]
fn find_terminator_finds_the_first() {
    assert_eq!(find_terminator(b""), None);
    assert_eq!(find_terminator(b"\r\n\r"), None);
    assert_eq!(find_terminator(b"\r\n\r\n"), Some(0));
    assert_eq!(find_terminator(b"a\r\n\r\n"), Some(1));
    assert_eq!(find_terminator(b"GET / HTTP/1.1\r\nHost: a\r\n\r\nbody\r\n\r\n"), Some(23));
    assert_eq!(find_terminator(b"\n\r\n\r"), None);
    assert_eq!(find_terminator(b"\r\n \r\n"), None);
    assert_eq!(find_terminator(b"\r\r\n\r\n"), Some(1));
    assert_eq!(find_terminator(b"\r\n\r\r\n\r\n"), Some(3));
}

#[test]
fn header_in_two_chunks_is_reassembled() {
    let mut accumulator = HeaderAccumulator::new();
    assert_eq!(accumulator.feed(b"GET / HTTP/1.1\r\nHost: a\r\n"), Ok(None));
    assert_eq!(accumulator.pending(), b"GET / HTTP/1.1\r\nHost: a\r\n");
    assert_eq!(accumulator.len(), 25);
    assert_eq!(
        accumulator.feed(b"\r\n"),
        Ok(Some(b"GET / HTTP/1.1\r\nHost: a\r\n\r\n".to_vec()))
    );
    assert!(accumulator.is_empty());
}

#[test]
fn header_in_one_chunk() {
    let mut accumulator = HeaderAccumulator::new();
    assert_eq!(
        accumulator.feed(b"GET / HTTP/1.1\r\n\r\n"),
        Ok(Some(b"GET / HTTP/1.1\r\n\r\n".to_vec()))
    );
    assert!(accumulator.is_empty());
}

#[test]
fn terminator_split_at_every_point() {
    let whole: &[u8] = b"GET / HTTP/1.1\r\nHost: a\r\n\r\n";
    for k in 0..whole.len() {
        let mut accumulator = HeaderAccumulator::new();
        assert_eq!(accumulator.feed(&whole[..k]), Ok(None));
        assert_eq!(accumulator.feed(&whole[k..]), Ok(Some(whole.to_vec())));
        assert!(accumulator.is_empty());
    }
}

#[test]
fn bytes_after_the_terminator_are_dropped() {
    let mut accumulator = HeaderAccumulator::new();
    assert_eq!(
        accumulator.feed(b"POST /a HTTP/1.1\r\n\r\nbody\r\n\r\nGET /b"),
        Ok(Some(b"POST /a HTTP/1.1\r\n\r\n".to_vec()))
    );
    assert!(accumulator.is_empty());
    assert_eq!(accumulator.feed(b"next"), Ok(None));
    assert_eq!(accumulator.pending(), b"next");
}

#[test]
fn each_request_starts_afresh() {
    let mut accumulator = HeaderAccumulator::new();
    assert_eq!(accumulator.feed(b"A\r\n\r\n"), Ok(Some(b"A\r\n\r\n".to_vec())));
    assert_eq!(accumulator.feed(b"B\r\n"), Ok(None));
    assert_eq!(accumulator.feed(b"\r\n"), Ok(Some(b"B\r\n\r\n".to_vec())));
}

#[test]
fn chunk_that_is_no_text_is_refused() {
    let mut accumulator = HeaderAccumulator::new();
    assert_eq!(accumulator.feed(b"abc"), Ok(None));
    assert_eq!(accumulator.feed(&[0xff, 0xfe]), Err(FeedError::NotText));
    assert_eq!(accumulator.pending(), b"abc");
    assert_eq!(accumulator.feed(&[b'a', 0xc3]), Err(FeedError::NotText));
    assert_eq!(accumulator.feed(b"\r\n\r\n\xff"), Err(FeedError::NotText));
    assert_eq!(accumulator.pending(), b"abc");
    assert_eq!(accumulator.feed("\u{e9}".as_bytes()), Ok(None));
    assert_eq!(accumulator.pending(), "abc\u{e9}".as_bytes());
}

#[test]
fn empty_chunk_changes_nothing() {
    let mut accumulator = HeaderAccumulator::new();
    assert_eq!(accumulator.feed(b""), Ok(None));
    assert!(accumulator.is_empty());
}

#[test]
fn oversize_without_terminator() {
    let mut accumulator = HeaderAccumulator::new();
    let chunk = [b'a'; 1500];
    for _ in 0..43 {
        assert_eq!(accumulator.feed(&chunk), Ok(None));
    }
    assert_eq!(accumulator.len(), 64500);
    assert_eq!(accumulator.feed(&chunk), Err(FeedError::Oversize));
    assert_eq!(accumulator.len(), 66000);
}

#[test]
fn cap_is_inclusive() {
    let mut accumulator = HeaderAccumulator::new();
    assert_eq!(accumulator.feed(&vec![b'a'; 65536]), Ok(None));
    assert_eq!(accumulator.len(), 65536);
    assert_eq!(accumulator.feed(b"a"), Err(FeedError::Oversize));
    assert_eq!(accumulator.len(), 65537);
}

#[test]
fn terminator_is_found_before_the_size_is_checked() {
    let mut accumulator = HeaderAccumulator::new();
    assert_eq!(accumulator.feed(&vec![b'a'; 65536]), Ok(None));
    let mut expected = vec![b'a'; 65536];
    expected.extend_from_slice(b"\r\n\r\n");
    assert_eq!(accumulator.feed(b"\r\n\r\nrest"), Ok(Some(expected)));
    assert!(accumulator.is_empty());
}
