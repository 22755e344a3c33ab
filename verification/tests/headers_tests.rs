use vibe::headers::{count_crlf, request_bytes, trim, HeaderScan};

#[test]
fn counts_line_ends() {
    assert_eq!(count_crlf(b""), 0);
    assert_eq!(count_crlf(b"\r"), 0);
    assert_eq!(count_crlf(b"\r\n"), 1);
    assert_eq!(count_crlf(b"\n\r"), 0);
    assert_eq!(count_crlf(b"GET /stream.mp3 HTTP/1.0\r\nHost: x\r\n\r\n"), 3);
    assert_eq!(count_crlf(b"GET / HTTP/1.0\n\n"), 0);
    assert_eq!(count_crlf(b"\r\r\n\n"), 1);
}

#[test]
fn trims_white_space_at_both_ends() {
    assert_eq!(trim(b"  abc \r\n"), (2, 5));
    assert_eq!(trim(b"abc"), (0, 3));
    assert_eq!(trim(b""), (0, 0));
    assert_eq!(trim(b" \t\r\n\x0b\x0c"), (6, 6));
    assert_eq!(trim(b"a b"), (0, 3));
}

#[test]
fn trims_white_space_beyond_ascii() {
    let text = "\u{a0}\u{2003}GET /\u{3000}\u{85}\u{1680}\u{205f}\u{2028}\u{2029}\u{202f}";
    let (from, to) = trim(text.as_bytes());
    assert_eq!(&text.as_bytes()[from..to], b"GET /");
    assert_eq!(&text.as_bytes()[from..to], text.trim().as_bytes());
    let kept = "\u{200b}x\u{200b}";
    assert_eq!(trim(kept.as_bytes()), (0, kept.len()));
}

#[test]
fn request_is_trimmed_headers_and_a_blank_line() {
    assert_eq!(
        request_bytes(b"GET /stream.mp3?player=00:11 HTTP/1.0\r\nHost: lms\r\n\r\n"),
        b"GET /stream.mp3?player=00:11 HTTP/1.0\r\nHost: lms\r\n\r\n".to_vec()
    );
    assert_eq!(request_bytes(b"  GET / HTTP/1.0"), b"GET / HTTP/1.0\r\n\r\n".to_vec());
    assert_eq!(request_bytes(b""), b"\r\n\r\n".to_vec());
}

#[test]
fn scan_steps() {
    assert_eq!(HeaderScan::LineStart.step(b'\r'), HeaderScan::SawCr);
    assert_eq!(HeaderScan::LineStart.step(b'\n'), HeaderScan::LineStart);
    assert_eq!(HeaderScan::LineStart.step(b'H'), HeaderScan::InLine);
    assert_eq!(HeaderScan::SawCr.step(b'\n'), HeaderScan::Done);
    assert_eq!(HeaderScan::SawCr.step(b'\r'), HeaderScan::InLine);
    assert_eq!(HeaderScan::InLine.step(b'\n'), HeaderScan::LineStart);
    assert_eq!(HeaderScan::InLine.step(b'\r'), HeaderScan::InLine);
    assert_eq!(HeaderScan::Done.step(b'x'), HeaderScan::Done);
}

#[test]
fn headers_end_behind_the_blank_line() {
    let stream = b"HTTP/1.0 200 OK\r\nContent-Type: audio/flac\r\n\r\nfLaC....";
    let (state, used) = HeaderScan::LineStart.feed(stream);
    assert_eq!(state, HeaderScan::Done);
    assert_eq!(&stream[used..], b"fLaC....");
    let terminator = stream.windows(4).position(|w| w == b"\r\n\r\n").unwrap();
    assert_eq!(used, terminator + 4);
}

#[test]
fn headers_may_come_in_pieces() {
    let (state, used) = HeaderScan::LineStart.feed(b"HTTP/1.0 200 OK\r");
    assert_eq!((state, used), (HeaderScan::InLine, 16));
    let (state, used) = state.feed(b"\n\r");
    assert_eq!((state, used), (HeaderScan::SawCr, 2));
    let (state, used) = state.feed(b"\nOggS");
    assert_eq!((state, used), (HeaderScan::Done, 1));
    let (state, used) = state.feed(b"OggS");
    assert_eq!((state, used), (HeaderScan::Done, 0));
}

#[test]
fn stream_without_blank_line_is_read_to_its_end() {
    let (state, used) = HeaderScan::LineStart.feed(b"HTTP/1.0 404 Not Found\r\n");
    assert_eq!((state, used), (HeaderScan::LineStart, 24));
    let (state, used) = HeaderScan::LineStart.feed(b"");
    assert_eq!((state, used), (HeaderScan::LineStart, 0));
}

#[test]
fn blank_line_is_a_line_of_its_own() {
    let (state, used) = HeaderScan::LineStart.feed(b"\r\n\r\ndata");
    assert_eq!((state, used), (HeaderScan::Done, 2));
    let (state, used) = HeaderScan::LineStart.feed(b"a\n\r\n\r\ndata");
    assert_eq!((state, used), (HeaderScan::Done, 4));
    let (state, used) = HeaderScan::LineStart.feed(b"a\r\r\n\r\ndata");
    assert_eq!((state, used), (HeaderScan::Done, 6));
}
