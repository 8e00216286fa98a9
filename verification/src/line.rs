//! The line reader: frames a byte stream into CRLF-terminated lines of text.
//! It knows nothing of HTTP.

use vstd::prelude::*;
use vstd::slice::slice_subrange;
use vstd::utf8::*;
use crate::error::{ParseError, ParseErrorView};
use crate::text::{find_from, lemma_find_from, lemma_find_from_first, lemma_find_from_none, occurs_at};

verus! {

/// Carriage return.
pub const CR: u8 = 13;

/// Line feed.
pub const LF: u8 = 10;

/// The two bytes that end a line.
pub open spec fn crlf() -> Seq<u8> {
    seq![CR, LF]
}

/// The line that starts at `start`: the text between `start` and the first
/// CRLF at or after it, and the index just behind that CRLF. A lone CR or LF
/// is part of the text. Without a CRLF there is no line: the input then
/// either holds nothing at `start` or ends in the middle of a line.
pub open spec fn line_at(input: Seq<u8>, start: int) -> Result<(Seq<char>, int), ParseErrorView> {
    match find_from(input, crlf(), start) {
        None => if start < input.len() {
            Err(ParseErrorView::UnterminatedLine)
        } else {
            Err(ParseErrorView::EndOfStream)
        },
        Some(end) => {
            let raw = input.subrange(start, end);
            if valid_utf8(raw) {
                Ok((decode_utf8(raw), end + 2))
            } else {
                Err(ParseErrorView::InvalidUtf8)
            }
        },
    }
}

/// A line that `line_at` finds ends inside the input, behind its start.
pub proof fn lemma_line_at(input: Seq<u8>, start: int)
    ensures
        line_at(input, start) matches Ok((_, next)) ==> 0 <= start && start + 2 <= next
            <= input.len(),
        line_at(input, start) matches Err(e) ==> e == ParseErrorView::EndOfStream || e
            == ParseErrorView::UnterminatedLine || e == ParseErrorView::InvalidUtf8,
{
    if 0 <= start {
        lemma_find_from(input, crlf(), start);
    }
}

/// Reads the line that starts at `start`, without its CRLF, and says where
/// the next one starts. Where no CRLF follows `start`, it fails with
/// `EndOfStream` if no byte is left at `start`, and with `UnterminatedLine`
/// if some are. Where the bytes before the CRLF are not well-formed UTF-8, it
/// fails with `InvalidUtf8`.
pub fn read_line(input: &[u8], start: usize) -> (r: Result<(String, usize), ParseError>)
    ensures
        r matches Ok((line, next)) ==> line_at(input@, start as int) == Ok::<_, ParseErrorView>(
            (line@, next as int),
        ),
        r matches Err(e) ==> line_at(input@, start as int) == Err::<(Seq<char>, int), _>(e@),
{
    let mut i = start;
    let mut after_cr = false;
    while i < input.len()
        invariant
            start <= i,
            after_cr == (start < i <= input.len() && input@[i - 1] == CR),
            forall|j: int| start <= j < i - 1 ==> !occurs_at(input@, crlf(), j),
        decreases input.len() - i,
    {
        let b = input[i];
        if b == LF && after_cr {
            proof {
                assert(input@.subrange(i - 1, i + 1) =~= crlf());
                lemma_find_from_first(input@, crlf(), start as int, i - 1);
            }
            let raw = slice_subrange(input, start, i - 1);
            return match core::str::from_utf8(raw) {
                Ok(text) => Ok((text.to_owned(), i + 1)),
                Err(_) => Err(ParseError::InvalidUtf8),
            };
        }
        assert(start < i ==> !occurs_at(input@, crlf(), i - 1)) by {
            if start < i && occurs_at(input@, crlf(), i - 1) {
                assert(input@.subrange(i - 1, i + 1)[0] == CR);
                assert(input@.subrange(i - 1, i + 1)[1] == LF);
            }
        }
        after_cr = b == CR;
        i += 1;
    }
    proof {
        lemma_find_from_none(input@, crlf(), start as int);
    }
    if start < input.len() {
        Err(ParseError::UnterminatedLine)
    } else {
        Err(ParseError::EndOfStream)
    }
}

} // verus!
