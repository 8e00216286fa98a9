//! How a request looks on the wire, and the proof that `accept` reads back
//! what was written there.

use vstd::prelude::*;
use vstd::utf8::*;
use crate::error::ParseErrorView;
use crate::line::{crlf, line_at, CR, LF};
use crate::request::{
    body_of,
    header_entry,
    header_lines,
    header_separator,
    method_named,
    request_line,
    request_of,
    token_after,
    HeadEntryView,
    Method,
    RequestLineView,
    RequestView,
};
use crate::text::{
    find_from,
    is_white_space,
    lemma_find_from,
    lemma_find_from_first,
    lemma_find_from_none,
    lemma_run_end_is,
    occurs_at,
};

verus! {

/// A line of text as it is sent: its UTF-8 bytes, then CRLF.
pub open spec fn wire_line(text: Seq<char>) -> Seq<u8> {
    encode_utf8(text) + crlf()
}

/// Whether `text` can be sent as one line: whether its bytes hold no CRLF.
pub open spec fn unbroken(text: Seq<char>) -> bool {
    find_from(encode_utf8(text), crlf(), 0) is None
}

/// Whether `t` can stand as one token of a request line: it is not empty
/// and holds no white space.
pub open spec fn is_token(t: Seq<char>) -> bool {
    &&& t.len() > 0
    &&& forall|i: int| 0 <= i < t.len() ==> !is_white_space(#[trigger] t[i])
}

/// A request line as it is written: method, target and version with one
/// space between them.
pub open spec fn request_line_text(method: Method, target: Seq<char>, version: Seq<char>) -> Seq<
    char,
> {
    method.text() + seq![' '] + target + seq![' '] + version
}

/// A header line as it is written: key, `": "`, value.
pub open spec fn header_text(entry: HeadEntryView) -> Seq<char> {
    entry.key + header_separator() + entry.val
}

/// Whether `entry` can be written as one header line and read back: its key
/// holds no `": "`, and its line holds no CRLF.
pub open spec fn is_header(entry: HeadEntryView) -> bool {
    &&& find_from(entry.key, header_separator(), 0) is None
    &&& unbroken(header_text(entry))
}

/// Header lines as they are sent, one after the other.
pub open spec fn wire_headers(entries: Seq<HeadEntryView>) -> Seq<u8>
    decreases entries.len(),
{
    if entries.len() == 0 {
        Seq::empty()
    } else {
        wire_line(header_text(entries[0])) + wire_headers(entries.drop_first())
    }
}

/// A request as it is sent: the request line, the header lines, an empty
/// line, and then the body.
pub open spec fn wire_request(
    method: Method,
    target: Seq<char>,
    version: Seq<char>,
    entries: Seq<HeadEntryView>,
    body: Seq<u8>,
) -> Seq<u8> {
    wire_line(request_line_text(method, target, version)) + wire_headers(entries) + crlf() + body
}

/// A scalar below 0x80 is encoded as itself; every byte of any other
/// scalar's encoding is 0x80 or more.
proof fn lemma_scalar_bytes(c: u32)
    requires
        is_scalar(c),
    ensures
        encode_scalar(c).len() > 0,
        forall|k: int|
            0 <= k < encode_scalar(c).len() && #[trigger] encode_scalar(c)[k] < 0x80
                ==> encode_scalar(c)[k] == c,
{
    if has_width_1_encoding(c) {
        assert(((c & 0x7F) as u8) as u32 == c) by (bit_vector)
            requires
                c <= 0x7F,
        ;
    } else {
        assert((0xC0u8 | ((c >> 6) & 0x1F) as u8) >= 0x80) by (bit_vector);
        assert((0xE0u8 | ((c >> 12) & 0x0F) as u8) >= 0x80) by (bit_vector);
        assert((0xF0u8 | ((c >> 18) & 0x7) as u8) >= 0x80) by (bit_vector);
        assert((0x80u8 | (c & 0x3F) as u8) >= 0x80) by (bit_vector);
        assert((0x80u8 | ((c >> 6) & 0x3F) as u8) >= 0x80) by (bit_vector);
        assert((0x80u8 | ((c >> 12) & 0x3F) as u8) >= 0x80) by (bit_vector);
    }
}

/// A byte below 0x80 in the encoding of `text` is a character of `text`:
/// the one at the index returned.
proof fn lemma_low_byte(text: Seq<char>, j: int) -> (i: int)
    requires
        0 <= j < encode_utf8(text).len(),
        encode_utf8(text)[j] < 0x80,
    ensures
        0 <= i < text.len(),
        text[i] as u32 == encode_utf8(text)[j],
    decreases text.len(),
{
    let first = encode_scalar(text[0] as u32);
    char_is_scalar(text[0]);
    lemma_scalar_bytes(text[0] as u32);
    if j < first.len() {
        assert(encode_utf8(text)[j] == first[j]);
        0
    } else {
        let rest = text.drop_first();
        assert(encode_utf8(text)[j] == encode_utf8(rest)[j - first.len()]);
        lemma_low_byte(rest, j - first.len()) + 1
    }
}

/// Text without a line feed can be sent as one line.
pub proof fn lemma_unbroken(text: Seq<char>)
    requires
        forall|i: int| 0 <= i < text.len() ==> #[trigger] text[i] != '\n',
    ensures
        unbroken(text),
{
    let raw = encode_utf8(text);
    assert forall|j: int| 0 <= j implies !occurs_at(raw, crlf(), j) by {
        if occurs_at(raw, crlf(), j) {
            assert(raw.subrange(j, j + 2)[1] == LF);
            let i = lemma_low_byte(text, j + 1);
            char_u32_cast(text[i], 10u32);
            assert(text[i] == '\n');
        }
    }
    lemma_find_from_none(raw, crlf(), 0);
}

/// A line that was sent behind `before` is read back at that place as it was
/// written, whatever follows it.
pub proof fn lemma_line_read_back(before: Seq<u8>, text: Seq<char>, after: Seq<u8>)
    requires
        unbroken(text),
    ensures
        line_at(before + wire_line(text) + after, before.len() as int) == Ok::<_, ParseErrorView>(
            (text, (before.len() + wire_line(text).len()) as int),
        ),
{
    broadcast use {encode_utf8_valid_utf8, encode_utf8_decode_utf8};

    let raw = encode_utf8(text);
    let s = before + wire_line(text) + after;
    let start = before.len() as int;
    let end = start + raw.len();
    lemma_find_from(raw, crlf(), 0);
    assert(s.subrange(end, end + 2) =~= crlf());
    assert forall|j: int| start <= j < end implies !occurs_at(s, crlf(), j) by {
        if occurs_at(s, crlf(), j) {
            assert(s.subrange(j, j + 2)[0] == CR && s.subrange(j, j + 2)[1] == LF);
            if j + 1 < end {
                assert(raw.subrange(j - start, j - start + 2) =~= crlf());
                assert(occurs_at(raw, crlf(), j - start));
            } else {
                assert(s[j + 1] == CR);
            }
        }
    }
    lemma_find_from_first(s, crlf(), start, end);
    assert(s.subrange(start, end) =~= raw);
}

/// A request line that was written with one space between its parts is
/// parsed into those parts.
pub proof fn lemma_request_line_read_back(method: Method, target: Seq<char>, version: Seq<char>)
    requires
        is_token(target),
        is_token(version),
    ensures
        request_line(request_line_text(method, target, version)) == Ok::<_, ParseErrorView>(
            RequestLineView { method, uri: target, version, args: None },
        ),
{
    let s = request_line_text(method, target, version);
    let name = method.text();
    let a1 = 0int;
    let b1 = name.len() as int;
    let a2 = b1 + 1;
    let b2 = a2 + target.len();
    let a3 = b2 + 1;
    let b3 = a3 + version.len();
    assert(b3 == s.len());
    assert(forall|j: int| 0 <= j < name.len() ==> !is_white_space(#[trigger] name[j]));
    assert(is_white_space(' '));
    assert forall|j: int| a1 <= j < b1 implies !is_white_space(s[j]) by {
        assert(s[j] == name[j]);
    }
    assert(s[b1] == ' ');
    assert forall|j: int| a2 <= j < b2 implies !is_white_space(s[j]) by {
        assert(s[j] == target[j - a2]);
    }
    assert(s[b2] == ' ');
    assert forall|j: int| a3 <= j < b3 implies !is_white_space(s[j]) by {
        assert(s[j] == version[j - a3]);
    }
    lemma_run_end_is(s, 0, a1, true);
    lemma_run_end_is(s, a1, b1, false);
    lemma_run_end_is(s, b1, a2, true);
    lemma_run_end_is(s, a2, b2, false);
    lemma_run_end_is(s, b2, a3, true);
    lemma_run_end_is(s, a3, b3, false);
    assert(token_after(s, 0) == (a1, b1));
    assert(token_after(s, b1) == (a2, b2));
    assert(token_after(s, b2) == (a3, b3));
    assert(s.subrange(a1, b1) =~= name);
    assert(s.subrange(a2, b2) =~= target);
    assert(s.subrange(a3, b3) =~= version);
    assert(method_named(name) == Some(method));
}

/// A header line that was written as key, `": "`, value is split into that
/// key and that value.
pub proof fn lemma_header_read_back(entry: HeadEntryView)
    requires
        find_from(entry.key, header_separator(), 0) is None,
    ensures
        header_entry(header_text(entry)) == Ok::<_, ParseErrorView>(entry),
{
    let s = header_text(entry);
    let at = entry.key.len() as int;
    lemma_find_from(entry.key, header_separator(), 0);
    assert(s.subrange(at, at + 2) =~= header_separator());
    assert forall|j: int| 0 <= j < at implies !occurs_at(s, header_separator(), j) by {
        if occurs_at(s, header_separator(), j) {
            assert(s.subrange(j, j + 2)[0] == ':' && s.subrange(j, j + 2)[1] == ' ');
            if j + 1 < at {
                assert(entry.key.subrange(j, j + 2) =~= header_separator());
                assert(occurs_at(entry.key, header_separator(), j));
            } else {
                assert(s[j + 1] == ':');
            }
        }
    }
    lemma_find_from_first(s, header_separator(), 0, at);
    assert(s.subrange(0, at) =~= entry.key);
    assert(s.subrange(at + 2, s.len() as int) =~= entry.val);
}

/// A header section that was sent behind `before` is read back at that place
/// entry by entry, in the order written, and ends behind its empty line.
pub proof fn lemma_headers_read_back(
    before: Seq<u8>,
    entries: Seq<HeadEntryView>,
    after: Seq<u8>,
)
    requires
        forall|i: int| 0 <= i < entries.len() ==> is_header(#[trigger] entries[i]),
    ensures
        header_lines(before + wire_headers(entries) + crlf() + after, before.len() as int) == Ok::<
            _,
            ParseErrorView,
        >((entries, (before.len() + wire_headers(entries).len() + 2) as int)),
    decreases entries.len(),
{
    let s = before + wire_headers(entries) + crlf() + after;
    let start = before.len() as int;
    if entries.len() == 0 {
        let nothing = Seq::<char>::empty();
        assert(encode_utf8(nothing) =~= Seq::<u8>::empty());
        assert(wire_line(nothing) =~= crlf());
        assert(s =~= before + wire_line(nothing) + after);
        lemma_line_read_back(before, nothing, after);
        assert(line_at(s, start) == Ok::<_, ParseErrorView>((nothing, start + 2)));
        assert(entries =~= Seq::<HeadEntryView>::empty());
    } else {
        let entry = entries[0];
        let rest = entries.drop_first();
        let text = header_text(entry);
        let sent = before + wire_line(text);
        assert(s =~= before + wire_line(text) + (wire_headers(rest) + crlf() + after));
        lemma_line_read_back(before, text, wire_headers(rest) + crlf() + after);
        lemma_header_read_back(entry);
        assert(s =~= sent + wire_headers(rest) + crlf() + after);
        assert forall|i: int| 0 <= i < rest.len() implies is_header(#[trigger] rest[i]) by {
            assert(rest[i] == entries[i + 1]);
        }
        lemma_headers_read_back(sent, rest, after);
        assert(seq![entry] + rest =~= entries);
        let next = start + wire_line(text).len();
        assert(line_at(s, start) == Ok::<_, ParseErrorView>((text, next)));
        assert(text.len() > 0);
        assert(header_entry(text) == Ok::<_, ParseErrorView>(entry));
        assert(sent.len() == next);
        assert(header_lines(s, next) == Ok::<_, ParseErrorView>(
            (rest, (next + wire_headers(rest).len() + 2) as int),
        ));
    }
}

/// A request is read back as it was written: the method, target and version
/// of its request line, its header entries in their order, and its body as
/// `body_of` says. This holds of every request whose target and version are
/// tokens and whose header lines can be sent and split: see `is_token` and
/// `is_header`.
pub proof fn lemma_request_read_back(
    method: Method,
    target: Seq<char>,
    version: Seq<char>,
    entries: Seq<HeadEntryView>,
    body: Seq<u8>,
)
    requires
        is_token(target),
        is_token(version),
        forall|i: int| 0 <= i < entries.len() ==> is_header(#[trigger] entries[i]),
    ensures
        request_of(wire_request(method, target, version, entries, body)) == match body_of(
            method,
            body,
        ) {
            Ok(text) => Ok(
                RequestView {
                    req_line: RequestLineView { method, uri: target, version, args: None },
                    head_entrys: entries,
                    body: text,
                },
            ),
            Err(e) => Err(e),
        },
{
    let first = request_line_text(method, target, version);
    let s = wire_request(method, target, version, entries, body);
    let nothing = Seq::<u8>::empty();
    assert forall|i: int| 0 <= i < first.len() implies #[trigger] first[i] != '\n' by {
        let name = method.text().len() as int;
        if i < name {
            assert(first[i] == method.text()[i]);
        } else if i == name {
        } else if i <= name + target.len() {
            assert(first[i] == target[i - name - 1]);
        } else if i == name + target.len() + 1 {
        } else {
            assert(first[i] == version[i - name - target.len() - 2]);
        }
    }
    lemma_unbroken(first);
    assert(s =~= nothing + wire_line(first) + (wire_headers(entries) + crlf() + body));
    lemma_line_read_back(nothing, first, wire_headers(entries) + crlf() + body);
    lemma_request_line_read_back(method, target, version);
    lemma_headers_read_back(wire_line(first), entries, body);
    let end = (wire_line(first).len() + wire_headers(entries).len() + 2) as int;
    assert(s.subrange(end, s.len() as int) =~= body);
}

} // verus!
