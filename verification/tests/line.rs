use tinyhttpd::error::ParseError;
use tinyhttpd::line::read_line;

#[test]
fn read_line_strips_the_terminator() {
    let input = b"GET / HTTP/1.0\r\nHost: x\r\n\r\n";
    assert_eq!(read_line(input, 0), Ok(("GET / HTTP/1.0".to_string(), 16)));
}

#[test]
fn read_line_goes_on_where_the_last_line_ended() {
    let input = b"GET / HTTP/1.0\r\nHost: x\r\n\r\n";
    assert_eq!(read_line(input, 16), Ok(("Host: x".to_string(), 25)));
    assert_eq!(read_line(input, 25), Ok((String::new(), 27)));
    assert_eq!(read_line(input, 27), Err(ParseError::EndOfStream));
}

#[test]
fn read_line_keeps_a_lone_cr_or_lf() {
    assert_eq!(read_line(b"a\rb\nc\r\n", 0), Ok(("a\rb\nc".to_string(), 7)));
}

#[test]
fn read_line_ends_at_the_first_crlf() {
    assert_eq!(read_line(b"x\r\r\ny\r\n", 0), Ok(("x\r".to_string(), 4)));
    assert_eq!(read_line(b"\r\n\r\n", 0), Ok((String::new(), 2)));
}

#[test]
fn read_line_ignores_a_cr_before_its_start() {
    // The LF at index 2 follows a CR that belongs to the line before.
    assert_eq!(read_line(b"x\r\ny\r\n", 2), Ok(("\ny".to_string(), 6)));
}

#[test]
fn read_line_reports_an_unterminated_line() {
    assert_eq!(read_line(b"abc", 0), Err(ParseError::UnterminatedLine));
    assert_eq!(read_line(b"abc\r", 0), Err(ParseError::UnterminatedLine));
    assert_eq!(read_line(b"abc\n", 0), Err(ParseError::UnterminatedLine));
    assert_eq!(read_line(b"abc\r\nd", 5), Err(ParseError::UnterminatedLine));
}

#[test]
fn read_line_tells_a_closed_stream_from_a_broken_line() {
    assert_eq!(read_line(b"", 0), Err(ParseError::EndOfStream));
    assert_eq!(read_line(b"a\r\n", 3), Err(ParseError::EndOfStream));
    assert_eq!(read_line(b"a\r\n", 2), Err(ParseError::UnterminatedLine));
}

#[test]
fn read_line_behind_the_end_finds_nothing() {
    assert_eq!(read_line(b"a\r\n", 4), Err(ParseError::EndOfStream));
    assert_eq!(read_line(b"a\r\n", usize::MAX), Err(ParseError::EndOfStream));
}

#[test]
fn read_line_rejects_invalid_utf8() {
    assert_eq!(read_line(b"\xff\xfe\r\n", 0), Err(ParseError::InvalidUtf8));
    // A truncated three-byte sequence.
    assert_eq!(read_line(b"ab\xe5\xbf\r\n", 0), Err(ParseError::InvalidUtf8));
}

#[test]
fn read_line_decodes_utf8() {
    let input = "忘れた: ü\r\n".as_bytes();
    assert_eq!(read_line(input, 0), Ok(("忘れた: ü".to_string(), input.len())));
}

#[test]
fn read_line_looks_for_the_terminator_before_it_decodes() {
    // The bytes behind the first CRLF are not looked at.
    assert_eq!(read_line(b"ok\r\n\xff", 0), Ok(("ok".to_string(), 4)));
    // Bytes before `start` are not looked at either.
    assert_eq!(read_line(b"\xffok\r\n", 1), Ok(("ok".to_string(), 5)));
}
