//! The dispatcher: where a target lies under the document root, who answers
//! a request, and what goes back over the wire.

use vstd::prelude::*;
use vstd::slice::slice_to_vec;
use vstd::string::*;
use vstd::utf8::*;
use crate::request::{
    lemma_split_query_path,
    parse_query_string,
    split_query,
    HttpRequest,
    Method,
    RequestView,
};

verus! {

/// What ends a line of a response head.
pub open spec fn line_break() -> Seq<char> {
    seq!['\r', '\n']
}

/// The head of every answer that carries content: status line, content
/// type, server name, and the empty line that ends the head.
pub open spec fn response_header_text() -> Seq<char> {
    "HTTP/1.0 200 OK"@ + line_break() + "Content-type: text/html; charset=utf-8"@ + line_break()
        + "Server: tinyhttpd.rs/0.1.0"@ + line_break() + line_break()
}

/// The page that tells a client that nothing was found.
pub open spec fn not_found_page() -> Seq<char> {
    "<html><title>404 Not Found</title><body><center><h1>Not Found!</h1><p>忘れた</p></center></body></html>"@
        + line_break()
}

/// The whole answer to a request for what is not there: head and page.
pub open spec fn not_found_text() -> Seq<char> {
    "HTTP/1.0 404 NOT FOUND"@ + line_break() + "Server: tinyhttpd.rs/0.1.0"@ + line_break()
        + "Content-Type: text/html; charset=utf-8"@ + line_break() + line_break()
        + not_found_page()
}

/// An answer with content: the success head, then `body` as it is.
pub open spec fn ok_response(body: Seq<u8>) -> Seq<u8> {
    encode_utf8(response_header_text()) + body
}

/// The bytes of the success head.
pub fn response_header() -> (head: &'static [u8])
    ensures
        head@ == encode_utf8(response_header_text()),
{
    let text =
        "HTTP/1.0 200 OK\r\nContent-type: text/html; charset=utf-8\r\nServer: tinyhttpd.rs/0.1.0\r\n\r\n";
    proof {
        reveal_strlit(
            "HTTP/1.0 200 OK\r\nContent-type: text/html; charset=utf-8\r\nServer: tinyhttpd.rs/0.1.0\r\n\r\n",
        );
        reveal_strlit("HTTP/1.0 200 OK");
        reveal_strlit("Content-type: text/html; charset=utf-8");
        reveal_strlit("Server: tinyhttpd.rs/0.1.0");
        assert(text@ =~= response_header_text());
    }
    text.as_bytes()
}

/// The bytes of the answer to a request for what is not there.
pub fn not_found() -> (answer: &'static [u8])
    ensures
        answer@ == encode_utf8(not_found_text()),
{
    let text =
        "HTTP/1.0 404 NOT FOUND\r\nServer: tinyhttpd.rs/0.1.0\r\nContent-Type: text/html; charset=utf-8\r\n\r\n<html><title>404 Not Found</title><body><center><h1>Not Found!</h1><p>忘れた</p></center></body></html>\r\n";
    proof {
        reveal_strlit(
            "HTTP/1.0 404 NOT FOUND\r\nServer: tinyhttpd.rs/0.1.0\r\nContent-Type: text/html; charset=utf-8\r\n\r\n<html><title>404 Not Found</title><body><center><h1>Not Found!</h1><p>忘れた</p></center></body></html>\r\n",
        );
        reveal_strlit("HTTP/1.0 404 NOT FOUND");
        reveal_strlit("Server: tinyhttpd.rs/0.1.0");
        reveal_strlit("Content-Type: text/html; charset=utf-8");
        reveal_strlit(
            "<html><title>404 Not Found</title><body><center><h1>Not Found!</h1><p>忘れた</p></center></body></html>",
        );
        assert(text@ =~= not_found_text());
    }
    text.as_bytes()
}

/// The page that tells a client that the server failed.
pub open spec fn server_error_page() -> Seq<char> {
    "<html><title>500 Internal Server Error</title><body><center><h1>Internal Server Error!</h1></center></body></html>"@
        + line_break()
}

/// The whole answer to a request at which the server failed: head and page.
pub open spec fn server_error_text() -> Seq<char> {
    "HTTP/1.0 500 INTERNAL SERVER ERROR"@ + line_break() + "Server: tinyhttpd.rs/0.1.0"@
        + line_break() + "Content-Type: text/html; charset=utf-8"@ + line_break() + line_break()
        + server_error_page()
}

/// The bytes of the answer to a request at which the server failed: its
/// program could not be run, or its file could not be read.
pub fn server_error() -> (answer: &'static [u8])
    ensures
        answer@ == encode_utf8(server_error_text()),
{
    let text =
        "HTTP/1.0 500 INTERNAL SERVER ERROR\r\nServer: tinyhttpd.rs/0.1.0\r\nContent-Type: text/html; charset=utf-8\r\n\r\n<html><title>500 Internal Server Error</title><body><center><h1>Internal Server Error!</h1></center></body></html>\r\n";
    proof {
        reveal_strlit(
            "HTTP/1.0 500 INTERNAL SERVER ERROR\r\nServer: tinyhttpd.rs/0.1.0\r\nContent-Type: text/html; charset=utf-8\r\n\r\n<html><title>500 Internal Server Error</title><body><center><h1>Internal Server Error!</h1></center></body></html>\r\n",
        );
        reveal_strlit("HTTP/1.0 500 INTERNAL SERVER ERROR");
        reveal_strlit("Server: tinyhttpd.rs/0.1.0");
        reveal_strlit("Content-Type: text/html; charset=utf-8");
        reveal_strlit(
            "<html><title>500 Internal Server Error</title><body><center><h1>Internal Server Error!</h1></center></body></html>",
        );
        assert(text@ =~= server_error_text());
    }
    text.as_bytes()
}

/// Puts the success head before `body`.
fn answer_with(body: &[u8]) -> (answer: Vec<u8>)
    ensures
        answer@ == ok_response(body@),
{
    let mut answer = slice_to_vec(response_header());
    answer.extend_from_slice(body);
    assert(answer@ =~= ok_response(body@));
    answer
}

/// Answers with a file: the success head, then the file's bytes unchanged.
pub fn serv_file(contents: &[u8]) -> (answer: Vec<u8>)
    ensures
        answer@ == ok_response(contents@),
        answer@.subrange(answer@.len() - contents@.len(), answer@.len() as int) == contents@,
{
    let answer = answer_with(contents);
    assert(answer@.subrange(answer@.len() - contents@.len(), answer@.len() as int) =~= contents@);
    answer
}

/// Answers with what a CGI program printed: the success head, then the
/// output unchanged. The output is not looked at: a program is expected to
/// print a body, not a head of its own.
pub fn cgi_answer(output: &[u8]) -> (answer: Vec<u8>)
    ensures
        answer@ == ok_response(output@),
        answer@.subrange(answer@.len() - output@.len(), answer@.len() as int) == output@,
{
    let answer = answer_with(output);
    assert(answer@.subrange(answer@.len() - output@.len(), answer@.len() as int) =~= output@);
    answer
}

/// The directory under which every target is looked up, relative to the
/// directory the server runs in.
pub open spec fn document_root() -> Seq<char> {
    "root"@
}

/// The file that answers for a directory.
pub open spec fn index_file() -> Seq<char> {
    "index.html"@
}

/// Where the target `uri` lies in the file system: under the document root,
/// with the index file's name added where `uri` ends in `/`. Nothing in
/// `uri` is normalised, so `..` can lead out of the document root.
pub open spec fn resolved_path(uri: Seq<char>) -> Seq<char> {
    if uri.len() > 0 && uri.last() == '/' {
        document_root() + uri + index_file()
    } else {
        document_root() + uri
    }
}

/// Maps a target to its path in the file system.
pub fn resolve_path(uri: &str) -> (path: String)
    ensures
        path@ == resolved_path(uri@),
{
    let mut path = String::from_str("root");
    path.append(uri);
    let n = uri.unicode_len();
    if n > 0 && uri.get_char(n - 1) == '/' {
        path.append("index.html");
    }
    path
}

/// The permission bits that let the owner, the group or anyone else execute
/// a file.
pub const EXECUTE_BITS: u32 = 0o111;

/// Whether a file with the permission bits `mode` is a program: whether any
/// of its execute bits is set.
pub fn is_executable(mode: u32) -> (b: bool)
    ensures
        b == (mode & EXECUTE_BITS != 0),
{
    mode & EXECUTE_BITS != 0
}

/// A target as it was found in the file system.
#[derive(Debug, Clone, PartialEq, Eq)]
pub struct ResolvedTarget {
    pub path: String,
    pub is_executable: bool,
}

/// Describes the file at `path`, opened with the permission bits `mode`.
pub fn resolve_target(path: String, mode: u32) -> (target: ResolvedTarget)
    ensures
        target.path == path,
        target.is_executable == (mode & EXECUTE_BITS != 0),
{
    ResolvedTarget { path, is_executable: is_executable(mode) }
}

/// A CGI program to run: its path, and the two environment variables it is
/// given. Its standard output becomes the body of the answer.
#[derive(Debug, Clone, PartialEq, Eq)]
pub struct CgiCall {
    pub program: String,
    /// The value of `REQUEST_METHOD`.
    pub request_method: String,
    /// The value of `QUERY_STRING`.
    pub query_string: String,
}

pub struct CgiCallView {
    pub program: Seq<char>,
    pub request_method: Seq<char>,
    pub query_string: Seq<char>,
}

impl View for CgiCall {
    type V = CgiCallView;

    open spec fn view(&self) -> CgiCallView {
        CgiCallView {
            program: self.program@,
            request_method: self.request_method@,
            query_string: self.query_string@,
        }
    }
}

/// The argument that a request hands to a CGI program: the body of a `POST`,
/// the query string of a `GET`; the empty text where there is none.
pub open spec fn cgi_argument(req: RequestView) -> Seq<char> {
    let given = match req.req_line.method {
        Method::Post => req.body,
        Method::Get => req.req_line.args,
    };
    match given {
        Some(text) => text,
        None => Seq::empty(),
    }
}

/// The call that runs `program` for `req`.
pub open spec fn cgi_call(program: Seq<char>, req: RequestView) -> CgiCallView {
    CgiCallView {
        program,
        request_method: req.req_line.method.text(),
        query_string: cgi_argument(req),
    }
}

/// Prepares the run of the program at `path` for `req`. To run it, and to
/// capture what it prints, is left to the caller.
pub fn exec_cgi(path: String, req: HttpRequest) -> (call: CgiCall)
    ensures
        call@ == cgi_call(path@, req@),
{
    let request_method = req.req_line.method.as_str().to_owned();
    let given = match req.req_line.method {
        Method::Post => req.body,
        Method::Get => req.req_line.args,
    };
    let query_string = match given {
        Some(text) => text,
        None => String::new(),
    };
    CgiCall { program: path, request_method, query_string }
}

/// Who answers a request, as far as the request alone decides it.
#[derive(Debug, Clone, PartialEq, Eq)]
pub enum Route {
    /// A CGI program answers.
    Cgi(CgiCall),
    /// The file at `path` decides: it is to be opened, and `route_target`
    /// goes on from what was found.
    Lookup { path: String },
}

pub enum RouteView {
    Cgi(CgiCallView),
    Lookup { path: Seq<char> },
}

impl View for Route {
    type V = RouteView;

    open spec fn view(&self) -> RouteView {
        match self {
            Route::Cgi(call) => RouteView::Cgi(call@),
            Route::Lookup { path } => RouteView::Lookup { path: path@ },
        }
    }
}

/// The route of a request. A `POST` goes to the program at its target, as
/// written. A `GET` has its query string split off first; with a query
/// string, whether split off now or before, it goes to the program at its
/// path, and without one the file at its path decides.
pub open spec fn route_of(req: RequestView) -> RouteView {
    match req.req_line.method {
        Method::Post => RouteView::Cgi(cgi_call(resolved_path(req.req_line.uri), req)),
        Method::Get => {
            let resolved = RequestView { req_line: split_query(req.req_line), ..req };
            let path = resolved_path(resolved.req_line.uri);
            if resolved.req_line.args is Some {
                RouteView::Cgi(cgi_call(path, resolved))
            } else {
                RouteView::Lookup { path }
            }
        },
    }
}

/// Decides who answers `req`, as far as that can be said without the file
/// system.
pub fn response(req: HttpRequest) -> (route: Route)
    ensures
        route@ == route_of(req@),
{
    let mut req = req;
    match req.req_line.method {
        Method::Post => {
            let path = resolve_path(req.req_line.uri.as_str());
            Route::Cgi(exec_cgi(path, req))
        },
        Method::Get => {
            parse_query_string(&mut req.req_line);
            let path = resolve_path(req.req_line.uri.as_str());
            if req.req_line.args.is_some() {
                Route::Cgi(exec_cgi(path, req))
            } else {
                Route::Lookup { path }
            }
        },
    }
}

/// Who answers a `GET` without a query string, once its file was looked up.
#[derive(Debug, Clone, PartialEq, Eq)]
pub enum Handler {
    /// The file could not be opened: the answer is the not-found page.
    NotFound,
    /// The file is a program: it answers.
    Cgi(CgiCall),
    /// The file's bytes are the answer.
    Static { path: String },
}

pub enum HandlerView {
    NotFound,
    Cgi(CgiCallView),
    Static { path: Seq<char> },
}

impl View for Handler {
    type V = HandlerView;

    open spec fn view(&self) -> HandlerView {
        match self {
            Handler::NotFound => HandlerView::NotFound,
            Handler::Cgi(call) => HandlerView::Cgi(call@),
            Handler::Static { path } => HandlerView::Static { path: path@ },
        }
    }
}

/// Who answers for the file at `path`: the file itself if it is a program,
/// run as for a `GET` without arguments, and else whoever sends its bytes.
pub open spec fn handler_of(path: Seq<char>, is_executable: bool) -> HandlerView {
    if is_executable {
        HandlerView::Cgi(
            CgiCallView {
                program: path,
                request_method: Method::Get.text(),
                query_string: Seq::empty(),
            },
        )
    } else {
        HandlerView::Static { path }
    }
}

/// Decides who answers for a file that was looked up: `None` says that it
/// could not be opened.
pub fn route_target(target: Option<ResolvedTarget>) -> (handler: Handler)
    ensures
        handler@ == match target {
            None => HandlerView::NotFound,
            Some(found) => handler_of(found.path@, found.is_executable),
        },
{
    match target {
        None => Handler::NotFound,
        Some(found) => if found.is_executable {
            Handler::Cgi(
                CgiCall {
                    program: found.path,
                    request_method: Method::Get.as_str().to_owned(),
                    query_string: String::new(),
                },
            )
        } else {
            Handler::Static { path: found.path }
        },
    }
}

/// Splitting off the query string, and routing, do the same to a request
/// whether or not its query string was split off before: a split target
/// splits to itself, and a `GET` takes the same route before and after.
pub proof fn lemma_resolution_idempotent(req: RequestView)
    ensures
        split_query(split_query(req.req_line)) == split_query(req.req_line),
        req.req_line.method == Method::Get ==> route_of(
            RequestView { req_line: split_query(req.req_line), ..req },
        ) == route_of(req),
{
    lemma_split_query_path(req.req_line);
}

} // verus!
