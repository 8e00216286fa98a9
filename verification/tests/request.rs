use tinyhttpd::error::ParseError;
use tinyhttpd::request::{
    accept, parse_header_entry, parse_query_string, parse_req_line, HttpHeadEntry, HttpRequest,
    HttpRequestLine, Method,
};

fn line(method: Method, uri: &str, version: &str) -> HttpRequestLine {
    HttpRequestLine { method, uri: uri.to_string(), version: version.to_string(), args: None }
}

fn entry(key: &str, val: &str) -> HttpHeadEntry {
    HttpHeadEntry { key: key.to_string(), val: val.to_string() }
}

#[test]
fn method_names() {
    assert_eq!(Method::Get.as_str(), "GET");
    assert_eq!(Method::Post.as_str(), "POST");
}

#[test]
fn parse_req_line_get() {
    assert_eq!(
        parse_req_line("GET /index.html HTTP/1.0"),
        Ok(line(Method::Get, "/index.html", "HTTP/1.0"))
    );
}

#[test]
fn parse_req_line_post() {
    assert_eq!(parse_req_line("POST /handler HTTP/1.0"), Ok(line(Method::Post, "/handler", "HTTP/1.0")));
}

#[test]
fn parse_req_line_keeps_the_query_in_the_target() {
    assert_eq!(
        parse_req_line("GET /script.cgi?x=1 HTTP/1.0"),
        Ok(line(Method::Get, "/script.cgi?x=1", "HTTP/1.0"))
    );
}

#[test]
fn parse_req_line_splits_at_runs_of_white_space() {
    assert_eq!(parse_req_line("  GET \t /a \r\n  HTTP/1.0  "), Ok(line(Method::Get, "/a", "HTTP/1.0")));
}

#[test]
fn parse_req_line_splits_at_unicode_white_space() {
    assert_eq!(
        parse_req_line("GET\u{3000}/a\u{a0}HTTP/1.0\u{2028}"),
        Ok(line(Method::Get, "/a", "HTTP/1.0"))
    );
}

#[test]
fn parse_req_line_keeps_what_is_not_white_space() {
    // U+200B and U+180E look like spaces and are none.
    assert_eq!(
        parse_req_line("GET /a\u{200b}b\u{180e}c HTTP/1.0"),
        Ok(line(Method::Get, "/a\u{200b}b\u{180e}c", "HTTP/1.0"))
    );
}

#[test]
fn parse_req_line_does_not_check_the_version() {
    assert_eq!(parse_req_line("GET / nonsense"), Ok(line(Method::Get, "/", "nonsense")));
}

#[test]
fn parse_req_line_ignores_what_follows_the_version() {
    assert_eq!(parse_req_line("GET / HTTP/1.0 and more"), Ok(line(Method::Get, "/", "HTTP/1.0")));
}

#[test]
fn parse_req_line_missing_method() {
    assert_eq!(parse_req_line(""), Err(ParseError::MissingMethod));
    assert_eq!(parse_req_line(" \t "), Err(ParseError::MissingMethod));
}

#[test]
fn parse_req_line_missing_uri() {
    assert_eq!(parse_req_line("GET"), Err(ParseError::MissingUri));
    assert_eq!(parse_req_line(" GET  "), Err(ParseError::MissingUri));
}

#[test]
fn parse_req_line_missing_version() {
    assert_eq!(parse_req_line("GET /"), Err(ParseError::MissingVersion));
    assert_eq!(parse_req_line("POST /x "), Err(ParseError::MissingVersion));
}

#[test]
fn parse_req_line_unsupported_method() {
    assert_eq!(
        parse_req_line("PUT / HTTP/1.0"),
        Err(ParseError::UnsupportedMethod("PUT".to_string()))
    );
    assert_eq!(
        parse_req_line("get / HTTP/1.0"),
        Err(ParseError::UnsupportedMethod("get".to_string()))
    );
    assert_eq!(
        parse_req_line("GETS / HTTP/1.0"),
        Err(ParseError::UnsupportedMethod("GETS".to_string()))
    );
    assert_eq!(
        parse_req_line("POS / HTTP/1.0"),
        Err(ParseError::UnsupportedMethod("POS".to_string()))
    );
}

#[test]
fn parse_req_line_reports_a_missing_token_before_the_method() {
    assert_eq!(parse_req_line("PUT"), Err(ParseError::MissingUri));
    assert_eq!(parse_req_line("PUT /"), Err(ParseError::MissingVersion));
}

#[test]
fn white_space_is_what_unicode_says() {
    // A character between the tokens splits them exactly when it is white
    // space: the line then has three tokens, and one token otherwise.
    let white = |c: u32| {
        matches!(
            c,
            0x09..=0x0D
                | 0x20
                | 0x85
                | 0xA0
                | 0x1680
                | 0x2000..=0x200A
                | 0x2028
                | 0x2029
                | 0x202F
                | 0x205F
                | 0x3000
        )
    };
    let mut n = 0;
    let mut code = 0u32;
    while code <= 0x10ffff {
        if let Some(c) = char::from_u32(code) {
            let text = format!("GET{}/x{}HTTP/1.0", c, c);
            let parsed = parse_req_line(&text);
            if white(code) {
                n += 1;
                assert_eq!(parsed, Ok(line(Method::Get, "/x", "HTTP/1.0")));
            } else {
                assert_eq!(parsed, Err(ParseError::MissingUri));
            }
        }
        code += 1;
    }
    assert_eq!(n, 25);
}

#[test]
fn parse_header_entry_splits_key_and_value() {
    assert_eq!(
        parse_header_entry("Host: example.com".to_string()),
        Ok(entry("Host", "example.com"))
    );
    assert_eq!(parse_header_entry("Content-Length: 5".to_string()), Ok(entry("Content-Length", "5")));
}

#[test]
fn parse_header_entry_splits_at_the_first_separator() {
    assert_eq!(parse_header_entry("a: b: c".to_string()), Ok(entry("a", "b: c")));
    assert_eq!(parse_header_entry("a:: b".to_string()), Ok(entry("a:", "b")));
    assert_eq!(parse_header_entry("a:b: c".to_string()), Ok(entry("a:b", "c")));
}

#[test]
fn parse_header_entry_takes_an_empty_key_or_value() {
    assert_eq!(parse_header_entry(": x".to_string()), Ok(entry("", "x")));
    assert_eq!(parse_header_entry("k: ".to_string()), Ok(entry("k", "")));
    assert_eq!(parse_header_entry(": ".to_string()), Ok(entry("", "")));
}

#[test]
fn parse_header_entry_keeps_white_space_of_the_value() {
    assert_eq!(parse_header_entry("k:  v ".to_string()), Ok(entry("k", " v ")));
}

#[test]
fn parse_header_entry_counts_characters_not_bytes() {
    assert_eq!(parse_header_entry("ключ: значение".to_string()), Ok(entry("ключ", "значение")));
    assert_eq!(parse_header_entry("忘: れた".to_string()), Ok(entry("忘", "れた")));
}

#[test]
fn parse_header_entry_without_separator() {
    assert_eq!(
        parse_header_entry("Key:value".to_string()),
        Err(ParseError::MalformedHeader("Key:value".to_string()))
    );
    assert_eq!(
        parse_header_entry("no separator".to_string()),
        Err(ParseError::MalformedHeader("no separator".to_string()))
    );
    assert_eq!(parse_header_entry(String::new()), Err(ParseError::MalformedHeader(String::new())));
    assert_eq!(parse_header_entry(":".to_string()), Err(ParseError::MalformedHeader(":".to_string())));
}

#[test]
fn parse_query_string_splits_at_the_first_mark() {
    let mut l = line(Method::Get, "/script.cgi?x=1", "HTTP/1.0");
    assert!(parse_query_string(&mut l));
    assert_eq!(
        l,
        HttpRequestLine {
            method: Method::Get,
            uri: "/script.cgi".to_string(),
            version: "HTTP/1.0".to_string(),
            args: Some("x=1".to_string()),
        }
    );

    let mut l = line(Method::Get, "/a?b?c", "HTTP/1.0");
    assert!(parse_query_string(&mut l));
    assert_eq!(l.uri, "/a");
    assert_eq!(l.args, Some("b?c".to_string()));
}

#[test]
fn parse_query_string_without_mark_changes_nothing() {
    let mut l = line(Method::Get, "/index.html", "HTTP/1.0");
    assert!(!parse_query_string(&mut l));
    assert_eq!(l, line(Method::Get, "/index.html", "HTTP/1.0"));

    let mut l = line(Method::Get, "", "HTTP/1.0");
    assert!(!parse_query_string(&mut l));
    assert_eq!(l, line(Method::Get, "", "HTTP/1.0"));
}

#[test]
fn parse_query_string_takes_an_empty_path_or_query() {
    let mut l = line(Method::Get, "/a?", "HTTP/1.0");
    assert!(parse_query_string(&mut l));
    assert_eq!(l.uri, "/a");
    assert_eq!(l.args, Some(String::new()));

    let mut l = line(Method::Get, "?x", "HTTP/1.0");
    assert!(parse_query_string(&mut l));
    assert_eq!(l.uri, "");
    assert_eq!(l.args, Some("x".to_string()));
}

#[test]
fn parse_query_string_counts_characters_not_bytes() {
    let mut l = line(Method::Get, "/忘れた?ключ=ü", "HTTP/1.0");
    assert!(parse_query_string(&mut l));
    assert_eq!(l.uri, "/忘れた");
    assert_eq!(l.args, Some("ключ=ü".to_string()));
}

#[test]
fn parse_query_string_twice_is_as_once() {
    let mut l = line(Method::Get, "/a?b?c", "HTTP/1.0");
    assert!(parse_query_string(&mut l));
    let once = l.clone();
    assert!(!parse_query_string(&mut l));
    assert_eq!(l, once);
}

#[test]
fn parse_query_string_leaves_method_and_version() {
    let mut l = line(Method::Post, "/a?b", "HTTP/1.1");
    assert!(parse_query_string(&mut l));
    assert_eq!(l.method, Method::Post);
    assert_eq!(l.version, "HTTP/1.1");
}

#[test]
fn accept_reads_a_request_without_headers() {
    assert_eq!(
        accept(b"GET /index.html HTTP/1.0\r\n\r\n"),
        Ok(HttpRequest {
            req_line: line(Method::Get, "/index.html", "HTTP/1.0"),
            head_entrys: vec![],
            body: None,
        })
    );
}

#[test]
fn accept_keeps_the_order_of_the_headers() {
    let input = b"GET / HTTP/1.0\r\nB: 1\r\nA: 2\r\nB: 3\r\n\r\n";
    assert_eq!(
        accept(input),
        Ok(HttpRequest {
            req_line: line(Method::Get, "/", "HTTP/1.0"),
            head_entrys: vec![entry("B", "1"), entry("A", "2"), entry("B", "3")],
            body: None,
        })
    );
}

#[test]
fn accept_takes_what_follows_the_head_of_a_post_as_its_body() {
    let input = b"POST /handler HTTP/1.0\r\nContent-Length: 5\r\n\r\nhello";
    assert_eq!(
        accept(input),
        Ok(HttpRequest {
            req_line: line(Method::Post, "/handler", "HTTP/1.0"),
            head_entrys: vec![entry("Content-Length", "5")],
            body: Some("hello".to_string()),
        })
    );
}

#[test]
fn accept_does_not_frame_the_body_by_content_length() {
    let input = b"POST /handler HTTP/1.0\r\nContent-Length: 2\r\n\r\nhello\r\nworld";
    assert_eq!(accept(input).unwrap().body, Some("hello\r\nworld".to_string()));
}

#[test]
fn accept_gives_a_post_without_more_bytes_an_empty_body() {
    assert_eq!(accept(b"POST /handler HTTP/1.0\r\n\r\n").unwrap().body, Some(String::new()));
}

#[test]
fn accept_leaves_aside_what_follows_the_head_of_a_get() {
    assert_eq!(accept(b"GET / HTTP/1.0\r\n\r\nignored \xff bytes").unwrap().body, None);
}

#[test]
fn accept_reads_what_was_written() {
    let headers = [("Host", "localhost"), ("Accept", "*/*"), ("X-Note", "a: b"), ("Host", "again")];
    let mut wire = Vec::new();
    wire.extend_from_slice("POST /p/忘れた?q HTTP/1.0".as_bytes());
    wire.extend_from_slice(b"\r\n");
    for (k, v) in headers {
        wire.extend_from_slice(k.as_bytes());
        wire.extend_from_slice(b": ");
        wire.extend_from_slice(v.as_bytes());
        wire.extend_from_slice(b"\r\n");
    }
    wire.extend_from_slice(b"\r\n");
    wire.extend_from_slice("body ü".as_bytes());
    assert_eq!(
        accept(&wire),
        Ok(HttpRequest {
            req_line: line(Method::Post, "/p/忘れた?q", "HTTP/1.0"),
            head_entrys: headers.iter().map(|(k, v)| entry(k, v)).collect(),
            body: Some("body ü".to_string()),
        })
    );
}

#[test]
fn accept_without_any_line() {
    assert_eq!(accept(b""), Err(ParseError::EndOfStream));
    assert_eq!(accept(b"GET / HTTP/1.0"), Err(ParseError::UnterminatedLine));
}

#[test]
fn accept_without_the_empty_line() {
    assert_eq!(accept(b"GET / HTTP/1.0\r\n"), Err(ParseError::UnterminatedHeaders));
    assert_eq!(accept(b"GET / HTTP/1.0\r\nHost: x\r\n"), Err(ParseError::UnterminatedHeaders));
    assert_eq!(accept(b"GET / HTTP/1.0\r\nHost: x\r\nAccept"), Err(ParseError::UnterminatedHeaders));
}

#[test]
fn accept_with_a_header_without_separator() {
    assert_eq!(
        accept(b"GET / HTTP/1.0\r\nHost: x\r\nBroken header\r\nAccept: y\r\n\r\n"),
        Err(ParseError::MalformedHeader("Broken header".to_string()))
    );
}

#[test]
fn accept_with_a_bad_request_line() {
    assert_eq!(accept(b"\r\n\r\n"), Err(ParseError::MissingMethod));
    assert_eq!(accept(b"GET\r\n\r\n"), Err(ParseError::MissingUri));
    assert_eq!(accept(b"GET /\r\n\r\n"), Err(ParseError::MissingVersion));
    assert_eq!(
        accept(b"DELETE / HTTP/1.0\r\n\r\n"),
        Err(ParseError::UnsupportedMethod("DELETE".to_string()))
    );
}

#[test]
fn accept_with_invalid_utf8() {
    assert_eq!(accept(b"GET /\xff HTTP/1.0\r\n\r\n"), Err(ParseError::InvalidUtf8));
    assert_eq!(accept(b"GET / HTTP/1.0\r\nHost: \xc3\r\n\r\n"), Err(ParseError::InvalidUtf8));
    assert_eq!(accept(b"POST / HTTP/1.0\r\n\r\n\xff"), Err(ParseError::InvalidUtf8));
}

#[test]
fn accept_reports_the_first_failure() {
    // The request line fails before the header is looked at.
    assert_eq!(accept(b"GET /\r\nBroken\r\n\r\n"), Err(ParseError::MissingVersion));
    // The broken header fails before the missing empty line is noticed.
    assert_eq!(
        accept(b"GET / HTTP/1.0\r\nBroken\r\nHost: x"),
        Err(ParseError::MalformedHeader("Broken".to_string()))
    );
    // The header section fails before the body is decoded.
    assert_eq!(
        accept(b"POST / HTTP/1.0\r\nBroken\r\n\r\n\xff"),
        Err(ParseError::MalformedHeader("Broken".to_string()))
    );
}

#[test]
fn parse_error_messages() {
    assert_eq!(ParseError::EndOfStream.message(), "end of stream");
    assert_eq!(ParseError::UnterminatedLine.message(), "unterminated line");
    assert_eq!(ParseError::InvalidUtf8.message(), "invalid utf-8 sequence");
    assert_eq!(ParseError::MissingMethod.message(), "no method found in request line");
    assert_eq!(ParseError::MissingUri.message(), "no uri found in request line");
    assert_eq!(ParseError::MissingVersion.message(), "no version found in request line");
    assert_eq!(
        ParseError::UnsupportedMethod("PUT".to_string()).message(),
        "unsupported method: PUT"
    );
    assert_eq!(ParseError::UnterminatedHeaders.message(), "no request header found");
    assert_eq!(
        ParseError::MalformedHeader("Host localhost".to_string()).message(),
        "no value found in header entry: Host localhost"
    );
}
