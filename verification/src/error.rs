//! Why a request was given up.

use vstd::prelude::*;
use vstd::string::*;

verus! {

/// A failure to read or parse a request. Each one is fatal to the request:
/// the connection is dropped and nothing is sent.
#[derive(Debug, Clone, PartialEq, Eq)]
pub enum ParseError {
    /// Nothing is left where a line was to start: the stream was closed
    /// between two lines.
    EndOfStream,
    /// The input ended in the middle of a line, before its CRLF.
    UnterminatedLine,
    /// A line, or the body, is not well-formed UTF-8.
    InvalidUtf8,
    /// The request line holds no token at all.
    MissingMethod,
    /// The request line ends after the method.
    MissingUri,
    /// The request line ends after the target.
    MissingVersion,
    /// The method is neither `GET` nor `POST`; holds the method as written.
    UnsupportedMethod(String),
    /// The input ended before the empty line that closes the header section.
    UnterminatedHeaders,
    /// A header line without `": "`; holds the line.
    MalformedHeader(String),
}

/// A `ParseError` with its texts as character sequences.
pub enum ParseErrorView {
    EndOfStream,
    UnterminatedLine,
    InvalidUtf8,
    MissingMethod,
    MissingUri,
    MissingVersion,
    UnsupportedMethod(Seq<char>),
    UnterminatedHeaders,
    MalformedHeader(Seq<char>),
}

impl View for ParseError {
    type V = ParseErrorView;

    open spec fn view(&self) -> ParseErrorView {
        match self {
            ParseError::EndOfStream => ParseErrorView::EndOfStream,
            ParseError::UnterminatedLine => ParseErrorView::UnterminatedLine,
            ParseError::InvalidUtf8 => ParseErrorView::InvalidUtf8,
            ParseError::MissingMethod => ParseErrorView::MissingMethod,
            ParseError::MissingUri => ParseErrorView::MissingUri,
            ParseError::MissingVersion => ParseErrorView::MissingVersion,
            ParseError::UnsupportedMethod(m) => ParseErrorView::UnsupportedMethod(m@),
            ParseError::UnterminatedHeaders => ParseErrorView::UnterminatedHeaders,
            ParseError::MalformedHeader(l) => ParseErrorView::MalformedHeader(l@),
        }
    }
}

impl ParseErrorView {
    /// The failure in words, with the text it holds, if any, behind a colon.
    pub open spec fn message(self) -> Seq<char> {
        match self {
            ParseErrorView::EndOfStream => "end of stream"@,
            ParseErrorView::UnterminatedLine => "unterminated line"@,
            ParseErrorView::InvalidUtf8 => "invalid utf-8 sequence"@,
            ParseErrorView::MissingMethod => "no method found in request line"@,
            ParseErrorView::MissingUri => "no uri found in request line"@,
            ParseErrorView::MissingVersion => "no version found in request line"@,
            ParseErrorView::UnsupportedMethod(method) => "unsupported method: "@ + method,
            ParseErrorView::UnterminatedHeaders => "no request header found"@,
            ParseErrorView::MalformedHeader(line) => "no value found in header entry: "@ + line,
        }
    }
}

impl ParseError {
    /// The failure in words, as it goes to the log.
    pub fn message(&self) -> (text: String)
        ensures
            text@ == self@.message(),
    {
        match self {
            ParseError::EndOfStream => String::from_str("end of stream"),
            ParseError::UnterminatedLine => String::from_str("unterminated line"),
            ParseError::InvalidUtf8 => String::from_str("invalid utf-8 sequence"),
            ParseError::MissingMethod => String::from_str("no method found in request line"),
            ParseError::MissingUri => String::from_str("no uri found in request line"),
            ParseError::MissingVersion => String::from_str("no version found in request line"),
            ParseError::UnsupportedMethod(method) => String::from_str(
                "unsupported method: ",
            ).concat(method.as_str()),
            ParseError::UnterminatedHeaders => String::from_str("no request header found"),
            ParseError::MalformedHeader(line) => String::from_str(
                "no value found in header entry: ",
            ).concat(line.as_str()),
        }
    }
}

} // verus!
