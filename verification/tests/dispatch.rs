use tinyhttpd::dispatch::{
    cgi_answer, exec_cgi, is_executable, not_found, resolve_path, resolve_target, response,
    response_header, route_target, serv_file, server_error, CgiCall, Handler, ResolvedTarget,
    Route, EXECUTE_BITS,
};
use tinyhttpd::request::{parse_query_string, HttpHeadEntry, HttpRequest, HttpRequestLine, Method};

const HEAD: &[u8] =
    b"HTTP/1.0 200 OK\r\nContent-type: text/html; charset=utf-8\r\nServer: tinyhttpd.rs/0.1.0\r\n\r\n";

fn request(method: Method, uri: &str, body: Option<&str>) -> HttpRequest {
    HttpRequest {
        req_line: HttpRequestLine {
            method,
            uri: uri.to_string(),
            version: "HTTP/1.0".to_string(),
            args: None,
        },
        head_entrys: vec![HttpHeadEntry { key: "Host".to_string(), val: "x".to_string() }],
        body: body.map(|b| b.to_string()),
    }
}

fn call(program: &str, method: &str, query: &str) -> CgiCall {
    CgiCall {
        program: program.to_string(),
        request_method: method.to_string(),
        query_string: query.to_string(),
    }
}

#[test]
fn response_header_is_the_success_head() {
    assert_eq!(response_header(), HEAD);
}

#[test]
fn not_found_is_the_fixed_page() {
    let expected = "HTTP/1.0 404 NOT FOUND\r\n\
                    Server: tinyhttpd.rs/0.1.0\r\n\
                    Content-Type: text/html; charset=utf-8\r\n\
                    \r\n\
                    <html>\
                    <title>404 Not Found</title>\
                    <body>\
                    <center>\
                    <h1>Not Found!</h1>\
                    <p>忘れた</p>\
                    </center>\
                    </body>\
                    </html>\r\n";
    assert_eq!(not_found(), expected.as_bytes());
    assert_eq!(not_found().len(), 202);
}

#[test]
fn server_error_is_the_fixed_page() {
    let expected = "HTTP/1.0 500 INTERNAL SERVER ERROR\r\n\
                    Server: tinyhttpd.rs/0.1.0\r\n\
                    Content-Type: text/html; charset=utf-8\r\n\
                    \r\n\
                    <html>\
                    <title>500 Internal Server Error</title>\
                    <body>\
                    <center>\
                    <h1>Internal Server Error!</h1>\
                    </center>\
                    </body>\
                    </html>\r\n";
    assert_eq!(server_error(), expected.as_bytes());
}

#[test]
fn serv_file_sends_the_file_behind_the_head() {
    let contents = b"<h1>It works</h1>\n";
    let answer = serv_file(contents);
    assert_eq!(&answer[..HEAD.len()], HEAD);
    assert_eq!(&answer[HEAD.len()..], contents);
}

#[test]
fn serv_file_keeps_every_byte() {
    let contents: Vec<u8> = (0..=255u8).collect();
    let answer = serv_file(&contents);
    assert_eq!(answer.len(), HEAD.len() + 256);
    assert_eq!(&answer[answer.len() - 256..], &contents[..]);
}

#[test]
fn serv_file_of_an_empty_file_is_the_head() {
    assert_eq!(serv_file(b""), HEAD);
}

#[test]
fn cgi_answer_sends_the_output_behind_the_head() {
    let output = b"<p>x is 1</p>\xff";
    let answer = cgi_answer(output);
    assert_eq!(&answer[..HEAD.len()], HEAD);
    assert_eq!(&answer[HEAD.len()..], output);
}

#[test]
fn resolve_path_puts_the_target_under_the_root() {
    assert_eq!(resolve_path("/index.html"), "root/index.html");
    assert_eq!(resolve_path("/a/b.html"), "root/a/b.html");
    assert_eq!(resolve_path(""), "root");
    assert_eq!(resolve_path("x"), "rootx");
}

#[test]
fn resolve_path_adds_the_index_file_to_a_directory() {
    assert_eq!(resolve_path("/"), "root/index.html");
    assert_eq!(resolve_path("/dir/"), "root/dir/index.html");
    assert_eq!(resolve_path("/忘れた/"), "root/忘れた/index.html");
    assert_eq!(resolve_path("//"), "root//index.html");
}

#[test]
fn resolve_path_does_not_normalise() {
    assert_eq!(resolve_path("/../etc/passwd"), "root/../etc/passwd");
    assert_eq!(resolve_path("/./a/../"), "root/./a/../index.html");
}

#[test]
fn execute_bits_are_those_of_owner_group_and_others() {
    assert_eq!(EXECUTE_BITS, 0o111);
    assert!(is_executable(0o755));
    assert!(is_executable(0o100));
    assert!(is_executable(0o010));
    assert!(is_executable(0o001));
    assert!(is_executable(0o100711));
    assert!(!is_executable(0o644));
    assert!(!is_executable(0o666));
    assert!(!is_executable(0));
    assert!(!is_executable(0o100644));
    assert!(!is_executable(0o7666));
}

#[test]
fn resolve_target_keeps_the_path() {
    assert_eq!(
        resolve_target("root/a".to_string(), 0o644),
        ResolvedTarget { path: "root/a".to_string(), is_executable: false }
    );
    assert_eq!(
        resolve_target("root/a.cgi".to_string(), 0o750),
        ResolvedTarget { path: "root/a.cgi".to_string(), is_executable: true }
    );
}

#[test]
fn exec_cgi_of_a_get_hands_over_the_query_string() {
    let mut req = request(Method::Get, "/s.cgi", Some("not this"));
    req.req_line.args = Some("x=1&y=2".to_string());
    assert_eq!(exec_cgi("root/s.cgi".to_string(), req), call("root/s.cgi", "GET", "x=1&y=2"));
}

#[test]
fn exec_cgi_of_a_post_hands_over_the_body() {
    let mut req = request(Method::Post, "/s.cgi", Some("hello"));
    req.req_line.args = Some("not this".to_string());
    assert_eq!(exec_cgi("root/s.cgi".to_string(), req), call("root/s.cgi", "POST", "hello"));
}

#[test]
fn exec_cgi_without_argument_hands_over_the_empty_text() {
    assert_eq!(
        exec_cgi("p".to_string(), request(Method::Get, "/p", None)),
        call("p", "GET", "")
    );
    assert_eq!(
        exec_cgi("p".to_string(), request(Method::Post, "/p", None)),
        call("p", "POST", "")
    );
}

#[test]
fn response_sends_a_post_to_its_program() {
    assert_eq!(
        response(request(Method::Post, "/handler", Some("hello"))),
        Route::Cgi(call("root/handler", "POST", "hello"))
    );
}

#[test]
fn response_takes_the_target_of_a_post_as_written() {
    assert_eq!(
        response(request(Method::Post, "/handler?x=1", Some("hello"))),
        Route::Cgi(call("root/handler?x=1", "POST", "hello"))
    );
    assert_eq!(
        response(request(Method::Post, "/dir/", None)),
        Route::Cgi(call("root/dir/index.html", "POST", ""))
    );
}

#[test]
fn response_sends_a_get_with_query_to_its_program() {
    assert_eq!(
        response(request(Method::Get, "/script.cgi?x=1", None)),
        Route::Cgi(call("root/script.cgi", "GET", "x=1"))
    );
    assert_eq!(
        response(request(Method::Get, "/dir/?", None)),
        Route::Cgi(call("root/dir/index.html", "GET", ""))
    );
}

#[test]
fn response_looks_up_a_get_without_query() {
    assert_eq!(
        response(request(Method::Get, "/index.html", None)),
        Route::Lookup { path: "root/index.html".to_string() }
    );
    assert_eq!(
        response(request(Method::Get, "/", Some("body"))),
        Route::Lookup { path: "root/index.html".to_string() }
    );
}

#[test]
fn response_is_the_same_before_and_after_the_query_is_split_off() {
    let req = request(Method::Get, "/a/?b?c", None);
    let mut split = req.clone();
    assert!(parse_query_string(&mut split.req_line));
    assert_eq!(response(split), response(req.clone()));
    assert_eq!(response(req.clone()), response(req));
}

#[test]
fn route_target_of_a_missing_file() {
    assert_eq!(route_target(None), Handler::NotFound);
}

#[test]
fn route_target_of_a_plain_file() {
    let target = resolve_target("root/index.html".to_string(), 0o644);
    assert_eq!(route_target(Some(target)), Handler::Static { path: "root/index.html".to_string() });
}

#[test]
fn route_target_of_a_program() {
    let target = resolve_target("root/run".to_string(), 0o755);
    assert_eq!(route_target(Some(target)), Handler::Cgi(call("root/run", "GET", "")));
}
