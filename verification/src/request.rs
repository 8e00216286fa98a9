//! The request model and the parsers that build it: request line, header
//! entries, query string, and a whole request out of a byte buffer.

use vstd::prelude::*;
use vstd::slice::slice_subrange;
use vstd::string::*;
use vstd::utf8::*;
use crate::error::{ParseError, ParseErrorView};
use crate::line::{lemma_line_at, line_at, read_line};
use crate::text::{
    chars_of,
    find,
    find_from,
    lemma_find_from,
    lemma_find_from_none,
    occurs_at,
    run_end,
    skip_run,
};

verus! {

/// The methods this server answers.
#[derive(Debug, Clone, Copy, PartialEq, Eq, Structural)]
pub enum Method {
    Get,
    Post,
}

impl Method {
    /// The method as it is written in a request line.
    pub open spec fn text(self) -> Seq<char> {
        match self {
            Method::Get => seq!['G', 'E', 'T'],
            Method::Post => seq!['P', 'O', 'S', 'T'],
        }
    }

    /// The method as it is written in a request line.
    pub fn as_str(&self) -> (s: &'static str)
        ensures
            s@ == self.text(),
    {
        match self {
            Method::Get => {
                proof {
                    reveal_strlit("GET");
                }
                assert("GET"@ =~= Method::Get.text());
                "GET"
            },
            Method::Post => {
                proof {
                    reveal_strlit("POST");
                }
                assert("POST"@ =~= Method::Post.text());
                "POST"
            },
        }
    }
}

/// The method that `token` names, if it names one. Names are case-sensitive.
pub open spec fn method_named(token: Seq<char>) -> Option<Method> {
    if token == Method::Get.text() {
        Some(Method::Get)
    } else if token == Method::Post.text() {
        Some(Method::Post)
    } else {
        None
    }
}

/// The first line of a request. `args` is `None` until the query string has
/// been split off the target.
#[derive(Debug, Clone, PartialEq, Eq)]
pub struct HttpRequestLine {
    pub method: Method,
    pub uri: String,
    pub version: String,
    pub args: Option<String>,
}

/// One header line, split at its first `": "`.
#[derive(Debug, Clone, PartialEq, Eq)]
pub struct HttpHeadEntry {
    pub key: String,
    pub val: String,
}

/// A request: its line, its header entries in the order received, and the
/// body if one was taken.
#[derive(Debug, Clone, PartialEq, Eq)]
pub struct HttpRequest {
    pub req_line: HttpRequestLine,
    pub head_entrys: Vec<HttpHeadEntry>,
    pub body: Option<String>,
}

pub struct RequestLineView {
    pub method: Method,
    pub uri: Seq<char>,
    pub version: Seq<char>,
    pub args: Option<Seq<char>>,
}

pub struct HeadEntryView {
    pub key: Seq<char>,
    pub val: Seq<char>,
}

pub struct RequestView {
    pub req_line: RequestLineView,
    pub head_entrys: Seq<HeadEntryView>,
    pub body: Option<Seq<char>>,
}

/// The characters of an optional text.
pub open spec fn text_view(o: Option<String>) -> Option<Seq<char>> {
    match o {
        Some(s) => Some(s@),
        None => None,
    }
}

/// The views of header entries, in order.
pub open spec fn entries_view(entries: Seq<HttpHeadEntry>) -> Seq<HeadEntryView> {
    Seq::new(entries.len(), |i: int| entries[i]@)
}

impl View for HttpRequestLine {
    type V = RequestLineView;

    open spec fn view(&self) -> RequestLineView {
        RequestLineView {
            method: self.method,
            uri: self.uri@,
            version: self.version@,
            args: text_view(self.args),
        }
    }
}

impl View for HttpHeadEntry {
    type V = HeadEntryView;

    open spec fn view(&self) -> HeadEntryView {
        HeadEntryView { key: self.key@, val: self.val@ }
    }
}

impl View for HttpRequest {
    type V = RequestView;

    open spec fn view(&self) -> RequestView {
        RequestView {
            req_line: self.req_line@,
            head_entrys: entries_view(self.head_entrys@),
            body: text_view(self.body),
        }
    }
}

/// The token that follows `from`: where it starts, behind any white space,
/// and where it ends, at the next white space or at the end of `s`. It is
/// empty exactly when nothing but white space follows `from`.
pub open spec fn token_after(s: Seq<char>, from: int) -> (int, int) {
    let start = run_end(s, from, true);
    (start, run_end(s, start, false))
}

/// What a request line says: its first three tokens are the method, the
/// target and the version; what follows them is ignored. A missing token is
/// reported before the method is looked at.
pub open spec fn request_line(s: Seq<char>) -> Result<RequestLineView, ParseErrorView> {
    let (a1, b1) = token_after(s, 0);
    let (a2, b2) = token_after(s, b1);
    let (a3, b3) = token_after(s, b2);
    if a1 == b1 {
        Err(ParseErrorView::MissingMethod)
    } else if a2 == b2 {
        Err(ParseErrorView::MissingUri)
    } else if a3 == b3 {
        Err(ParseErrorView::MissingVersion)
    } else {
        match method_named(s.subrange(a1, b1)) {
            None => Err(ParseErrorView::UnsupportedMethod(s.subrange(a1, b1))),
            Some(method) => Ok(
                RequestLineView {
                    method,
                    uri: s.subrange(a2, b2),
                    version: s.subrange(a3, b3),
                    args: None,
                },
            ),
        }
    }
}

/// The method that the characters `[from, to)` of `s` name.
fn method_of(s: &[char], from: usize, to: usize) -> (m: Option<Method>)
    requires
        from <= to <= s.len(),
    ensures
        m == method_named(s@.subrange(from as int, to as int)),
{
    let ghost token = s@.subrange(from as int, to as int);
    if to - from == 3 && s[from] == 'G' && s[from + 1] == 'E' && s[from + 2] == 'T' {
        assert(token =~= Method::Get.text());
        Some(Method::Get)
    } else if to - from == 4 && s[from] == 'P' && s[from + 1] == 'O' && s[from + 2] == 'S' && s[from
        + 3] == 'T' {
        assert(token =~= Method::Post.text());
        Some(Method::Post)
    } else {
        assert(token != Method::Get.text()) by {
            if token == Method::Get.text() {
                assert(token.len() == 3);
                assert(token[0] == 'G' && token[1] == 'E' && token[2] == 'T');
                assert(token[0] == s@[from + 0] && token[1] == s@[from + 1] && token[2] == s@[from
                    + 2]);
            }
        }
        assert(token != Method::Post.text()) by {
            if token == Method::Post.text() {
                assert(token.len() == 4);
                assert(token[0] == 'P' && token[1] == 'O' && token[2] == 'S' && token[3] == 'T');
                assert(token[0] == s@[from + 0] && token[1] == s@[from + 1] && token[2] == s@[from
                    + 2] && token[3] == s@[from + 3]);
            }
        }
        None
    }
}

/// Parses a request line into method, target and version.
///
/// The line is split at runs of white space. `MissingMethod`, `MissingUri`
/// or `MissingVersion` names the first token that is not there;
/// `UnsupportedMethod` comes when all three are there and the method is not
/// `GET` or `POST`. The version is taken as written.
pub fn parse_req_line(req_line: &str) -> (r: Result<HttpRequestLine, ParseError>)
    ensures
        r matches Ok(line) ==> request_line(req_line@) == Ok::<_, ParseErrorView>(line@),
        r matches Err(e) ==> request_line(req_line@) == Err::<RequestLineView, _>(e@),
{
    let chars = chars_of(req_line);
    let a1 = skip_run(&chars, 0, true);
    let b1 = skip_run(&chars, a1, false);
    let a2 = skip_run(&chars, b1, true);
    let b2 = skip_run(&chars, a2, false);
    let a3 = skip_run(&chars, b2, true);
    let b3 = skip_run(&chars, a3, false);
    if a1 == b1 {
        return Err(ParseError::MissingMethod);
    }
    if a2 == b2 {
        return Err(ParseError::MissingUri);
    }
    if a3 == b3 {
        return Err(ParseError::MissingVersion);
    }
    match method_of(&chars, a1, b1) {
        None => Err(ParseError::UnsupportedMethod(req_line.substring_char(a1, b1).to_owned())),
        Some(method) => Ok(
            HttpRequestLine {
                method,
                uri: req_line.substring_char(a2, b2).to_owned(),
                version: req_line.substring_char(a3, b3).to_owned(),
                args: None,
            },
        ),
    }
}

/// What stands between a header's key and its value.
pub open spec fn header_separator() -> Seq<char> {
    seq![':', ' ']
}

/// What a header line says: the key is what stands before the first `": "`,
/// the value what stands behind it.
pub open spec fn header_entry(line: Seq<char>) -> Result<HeadEntryView, ParseErrorView> {
    match find_from(line, header_separator(), 0) {
        Some(i) => Ok(
            HeadEntryView { key: line.subrange(0, i), val: line.subrange(i + 2, line.len() as int) },
        ),
        None => Err(ParseErrorView::MalformedHeader(line)),
    }
}

/// Splits a header line at its first `": "` into key and value. A line
/// without `": "` fails with `MalformedHeader`, which holds the line.
pub fn parse_header_entry(head_entry: String) -> (r: Result<HttpHeadEntry, ParseError>)
    ensures
        r matches Ok(entry) ==> header_entry(head_entry@) == Ok::<_, ParseErrorView>(entry@),
        r matches Err(e) ==> header_entry(head_entry@) == Err::<HeadEntryView, _>(e@),
{
    let chars = chars_of(head_entry.as_str());
    let separator = vec![':', ' '];
    assert(separator@ =~= header_separator());
    match find(&chars, &separator, 0) {
        Some(i) => {
            proof {
                lemma_find_from(chars@, separator@, 0);
                assert(occurs_at(chars@, separator@, i as int));
                assert(separator@.len() == 2);
            }
            assert(i + 2 <= chars.len());
            let line = head_entry.as_str();
            Ok(
                HttpHeadEntry {
                    key: line.substring_char(0, i).to_owned(),
                    val: line.substring_char(i + 2, chars.len()).to_owned(),
                },
            )
        },
        None => Err(ParseError::MalformedHeader(head_entry)),
    }
}

/// What separates a target's path from its query string.
pub open spec fn query_mark() -> Seq<char> {
    seq!['?']
}

/// The request line with its target split at the first `?`: the path stays
/// in `uri`, what follows the `?` goes to `args`. A target without `?` is
/// left as it is.
pub open spec fn split_query(line: RequestLineView) -> RequestLineView {
    match find_from(line.uri, query_mark(), 0) {
        Some(i) => RequestLineView {
            uri: line.uri.subrange(0, i),
            args: Some(line.uri.subrange(i + 1, line.uri.len() as int)),
            ..line
        },
        None => line,
    }
}

/// What `split_query` leaves in `uri` holds no `?`.
pub proof fn lemma_split_query_path(line: RequestLineView)
    ensures
        find_from(split_query(line).uri, query_mark(), 0) is None,
{
    lemma_find_from(line.uri, query_mark(), 0);
    if let Some(i) = find_from(line.uri, query_mark(), 0) {
        let path = line.uri.subrange(0, i);
        assert forall|j: int| 0 <= j implies !occurs_at(path, query_mark(), j) by {
            if occurs_at(path, query_mark(), j) {
                assert(path.subrange(j, j + 1)[0] == line.uri.subrange(j, j + 1)[0]);
                assert(line.uri.subrange(j, j + 1) =~= query_mark());
                assert(occurs_at(line.uri, query_mark(), j));
            }
        }
        lemma_find_from_none(path, query_mark(), 0);
    }
}

/// Splits the query string off the target, and says whether there was one.
/// Afterwards the target holds no `?`.
pub fn parse_query_string(req_line: &mut HttpRequestLine) -> (found: bool)
    ensures
        found == find_from(old(req_line).uri@, query_mark(), 0) is Some,
        final(req_line)@ == split_query(old(req_line)@),
        !found ==> *final(req_line) == *old(req_line),
        find_from(final(req_line).uri@, query_mark(), 0) is None,
{
    proof {
        lemma_split_query_path(req_line@);
    }
    let chars = chars_of(req_line.uri.as_str());
    let mark = vec!['?'];
    assert(mark@ =~= query_mark());
    match find(&chars, &mark, 0) {
        Some(i) => {
            proof {
                lemma_find_from(chars@, mark@, 0);
                assert(occurs_at(chars@, mark@, i as int));
                assert(mark@.len() == 1);
            }
            assert(i < chars.len());
            let path = req_line.uri.as_str().substring_char(0, i).to_owned();
            let args = req_line.uri.as_str().substring_char(i + 1, chars.len()).to_owned();
            req_line.uri = path;
            req_line.args = Some(args);
            true
        },
        None => false,
    }
}

/// The header section that starts at `pos`: the entries of its lines, in
/// order, up to the first empty line, and the index just behind that line.
/// The first line that cannot be read or split decides the error; input that
/// ends before the empty line is `UnterminatedHeaders`.
pub open spec fn header_lines(input: Seq<u8>, pos: int) -> Result<
    (Seq<HeadEntryView>, int),
    ParseErrorView,
>
    decreases input.len() - pos,
    via header_lines_decreases
{
    match line_at(input, pos) {
        Err(e) => Err(
            if e == ParseErrorView::EndOfStream || e == ParseErrorView::UnterminatedLine {
                ParseErrorView::UnterminatedHeaders
            } else {
                e
            },
        ),
        Ok((line, next)) => {
            if line.len() == 0 {
                Ok((Seq::empty(), next))
            } else {
                match header_entry(line) {
                    Err(e) => Err(e),
                    Ok(entry) => match header_lines(input, next) {
                        Err(e) => Err(e),
                        Ok((rest, end)) => Ok((seq![entry] + rest, end)),
                    },
                }
            }
        },
    }
}

#[via_fn]
proof fn header_lines_decreases(input: Seq<u8>, pos: int) {
    lemma_line_at(input, pos);
}

/// The body of a request whose head is followed by `rest`. A `GET` has none,
/// whatever follows; a `POST` has all of `rest` as text, which must be
/// well-formed UTF-8.
pub open spec fn body_of(method: Method, rest: Seq<u8>) -> Result<Option<Seq<char>>, ParseErrorView> {
    match method {
        Method::Get => Ok(None),
        Method::Post => if valid_utf8(rest) {
            Ok(Some(decode_utf8(rest)))
        } else {
            Err(ParseErrorView::InvalidUtf8)
        },
    }
}

/// The request that `input` holds: request line, header section, body. The
/// first stage that fails decides the error.
pub open spec fn request_of(input: Seq<u8>) -> Result<RequestView, ParseErrorView> {
    match line_at(input, 0) {
        Err(e) => Err(e),
        Ok((first, next)) => match request_line(first) {
            Err(e) => Err(e),
            Ok(req_line) => match header_lines(input, next) {
                Err(e) => Err(e),
                Ok((head_entrys, end)) => match body_of(
                    req_line.method,
                    input.subrange(end, input.len() as int),
                ) {
                    Err(e) => Err(e),
                    Ok(body) => Ok(RequestView { req_line, head_entrys, body }),
                },
            },
        },
    }
}

/// A header section of which `done` has been read and `rest` is to come.
spec fn following(
    done: Seq<HeadEntryView>,
    rest: Result<(Seq<HeadEntryView>, int), ParseErrorView>,
) -> Result<(Seq<HeadEntryView>, int), ParseErrorView> {
    match rest {
        Ok((entries, end)) => Ok((done + entries, end)),
        Err(e) => Err(e),
    }
}

/// Reads the header section that starts at `start`.
fn read_headers(input: &[u8], start: usize) -> (r: Result<(Vec<HttpHeadEntry>, usize), ParseError>)
    ensures
        r matches Ok((entries, end)) ==> header_lines(input@, start as int) == Ok::<
            _,
            ParseErrorView,
        >((entries_view(entries@), end as int)) && end <= input.len(),
        r matches Err(e) ==> header_lines(input@, start as int) == Err::<
            (Seq<HeadEntryView>, int),
            _,
        >(e@),
{
    let mut entries: Vec<HttpHeadEntry> = Vec::new();
    let mut pos = start;
    assert(header_lines(input@, start as int) == following(
        entries_view(entries@),
        header_lines(input@, pos as int),
    )) by {
        let rest = header_lines(input@, pos as int);
        if let Ok((found, end)) = rest {
            assert(entries_view(entries@) + found =~= found);
        }
    }
    loop
        invariant
            header_lines(input@, start as int) == following(
                entries_view(entries@),
                header_lines(input@, pos as int),
            ),
        decreases input.len() - pos,
    {
        proof {
            lemma_line_at(input@, pos as int);
        }
        let (line, next) = match read_line(input, pos) {
            Ok(read) => read,
            Err(ParseError::EndOfStream) | Err(ParseError::UnterminatedLine) => {
                return Err(ParseError::UnterminatedHeaders);
            },
            Err(e) => {
                return Err(e);
            },
        };
        if line.as_str().unicode_len() == 0 {
            assert(entries_view(entries@) + Seq::<HeadEntryView>::empty() =~= entries_view(
                entries@,
            ));
            return Ok((entries, next));
        }
        let ghost before = entries_view(entries@);
        let entry = match parse_header_entry(line) {
            Ok(entry) => entry,
            Err(e) => {
                return Err(e);
            },
        };
        entries.push(entry);
        proof {
            assert(entries_view(entries@) =~= before.push(entry@));
            if let Ok((found, end)) = header_lines(input@, next as int) {
                assert(before + (seq![entry@] + found) =~= before.push(entry@) + found);
            }
        }
        pos = next;
    }
}

/// Reads a request out of `input`: the request line, the header entries up
/// to the empty line, and for a `POST` all that follows as the body.
///
/// Of a `GET`, what follows the header section is left aside. Nothing frames
/// the body of a `POST`: it is whatever the buffer holds behind the empty
/// line, and text that is not well-formed UTF-8 fails with `InvalidUtf8`.
pub fn accept(input: &[u8]) -> (r: Result<HttpRequest, ParseError>)
    ensures
        r matches Ok(request) ==> request_of(input@) == Ok::<_, ParseErrorView>(request@),
        r matches Err(e) ==> request_of(input@) == Err::<RequestView, _>(e@),
{
    let (first, next) = match read_line(input, 0) {
        Ok(read) => read,
        Err(e) => {
            return Err(e);
        },
    };
    let req_line = match parse_req_line(first.as_str()) {
        Ok(req_line) => req_line,
        Err(e) => {
            return Err(e);
        },
    };
    let (head_entrys, end) = match read_headers(input, next) {
        Ok(read) => read,
        Err(e) => {
            return Err(e);
        },
    };
    let body = match req_line.method {
        Method::Get => None,
        Method::Post => match core::str::from_utf8(slice_subrange(input, end, input.len())) {
            Ok(text) => Some(text.to_owned()),
            Err(_) => {
                return Err(ParseError::InvalidUtf8);
            },
        },
    };
    Ok(HttpRequest { req_line, head_entrys, body })
}

} // verus!
