//! One connection from its first byte to its last, as a state machine: after
//! each thing that happened it says where the connection stands and what is
//! to be done next. To do it, and to report what came of it, is left to the
//! caller.

use vstd::prelude::*;
use vstd::slice::slice_to_vec;
use vstd::utf8::*;
use crate::dispatch::{
    cgi_answer,
    handler_of,
    not_found,
    not_found_text,
    ok_response,
    resolve_target,
    response,
    route_of,
    route_target,
    serv_file,
    server_error,
    server_error_text,
    CgiCall,
    CgiCallView,
    Handler,
    HandlerView,
    Route,
    RouteView,
    EXECUTE_BITS,
};
use crate::error::{ParseError, ParseErrorView};
use crate::request::{accept, request_of};

verus! {

/// Where a connection stands.
#[derive(Debug, Clone, PartialEq, Eq)]
pub enum State {
    /// The bytes received so far do not hold a whole request line.
    ParsingRequestLine { buf: Vec<u8> },
    /// The bytes received so far hold the request line, and not yet the
    /// empty line that ends the header section.
    ParsingHeaders { buf: Vec<u8> },
    /// The file at `path` is being opened.
    ResolvingTarget { path: String },
    /// The file at `path` is being read.
    ServingStatic { path: String },
    /// The program is running.
    InvokingCgi,
    /// The answer is being sent.
    Responding,
    /// The connection is over.
    Done,
    /// The request was given up, and nothing is sent.
    Failed(ParseError),
}

/// What happened on a connection.
#[derive(Debug, Clone, PartialEq, Eq)]
pub enum Event {
    /// These bytes came from the client.
    Received(Vec<u8>),
    /// The client will send no more.
    Closed,
    /// The file was opened; `mode` holds its permission bits.
    Opened { mode: u32 },
    /// The file could not be opened.
    OpenFailed,
    /// The file was read to its end.
    Contents(Vec<u8>),
    /// The program ran and printed this.
    Output(Vec<u8>),
    /// What was to be done could not be done.
    Failed,
    /// The answer was sent.
    Sent,
}

/// What is to be done next on a connection.
#[derive(Debug, Clone, PartialEq, Eq)]
pub enum Action {
    /// Receive more bytes from the client, and report `Received` or `Closed`.
    Receive,
    /// Open the file at `path` and take its permission bits from the handle:
    /// report `Opened` or `OpenFailed`.
    Open { path: String },
    /// Read the opened file to its end from the same handle, and report
    /// `Contents` or `Failed`.
    ReadFile,
    /// Run the program and capture what it prints: report `Output` or
    /// `Failed`.
    Run(CgiCall),
    /// Send these bytes to the client, and report `Sent` or `Failed`.
    Send(Vec<u8>),
    /// Close the connection.
    Close,
}

pub enum StateView {
    ParsingRequestLine { buf: Seq<u8> },
    ParsingHeaders { buf: Seq<u8> },
    ResolvingTarget { path: Seq<char> },
    ServingStatic { path: Seq<char> },
    InvokingCgi,
    Responding,
    Done,
    Failed(ParseErrorView),
}

pub enum EventView {
    Received(Seq<u8>),
    Closed,
    Opened { mode: u32 },
    OpenFailed,
    Contents(Seq<u8>),
    Output(Seq<u8>),
    Failed,
    Sent,
}

pub enum ActionView {
    Receive,
    Open { path: Seq<char> },
    ReadFile,
    Run(CgiCallView),
    Send(Seq<u8>),
    Close,
}

impl View for State {
    type V = StateView;

    open spec fn view(&self) -> StateView {
        match self {
            State::ParsingRequestLine { buf } => StateView::ParsingRequestLine { buf: buf@ },
            State::ParsingHeaders { buf } => StateView::ParsingHeaders { buf: buf@ },
            State::ResolvingTarget { path } => StateView::ResolvingTarget { path: path@ },
            State::ServingStatic { path } => StateView::ServingStatic { path: path@ },
            State::InvokingCgi => StateView::InvokingCgi,
            State::Responding => StateView::Responding,
            State::Done => StateView::Done,
            State::Failed(e) => StateView::Failed(e@),
        }
    }
}

impl View for Event {
    type V = EventView;

    open spec fn view(&self) -> EventView {
        match self {
            Event::Received(bytes) => EventView::Received(bytes@),
            Event::Closed => EventView::Closed,
            Event::Opened { mode } => EventView::Opened { mode: *mode },
            Event::OpenFailed => EventView::OpenFailed,
            Event::Contents(bytes) => EventView::Contents(bytes@),
            Event::Output(bytes) => EventView::Output(bytes@),
            Event::Failed => EventView::Failed,
            Event::Sent => EventView::Sent,
        }
    }
}

impl View for Action {
    type V = ActionView;

    open spec fn view(&self) -> ActionView {
        match self {
            Action::Receive => ActionView::Receive,
            Action::Open { path } => ActionView::Open { path: path@ },
            Action::ReadFile => ActionView::ReadFile,
            Action::Run(call) => ActionView::Run(call@),
            Action::Send(bytes) => ActionView::Send(bytes@),
            Action::Close => ActionView::Close,
        }
    }
}

/// Where a connection stands once its request has a route: a program is
/// run at once, and a file is opened first.
pub open spec fn routed(route: RouteView) -> (StateView, ActionView) {
    match route {
        RouteView::Cgi(call) => (StateView::InvokingCgi, ActionView::Run(call)),
        RouteView::Lookup { path } => (
            StateView::ResolvingTarget { path },
            ActionView::Open { path },
        ),
    }
}

/// Where a connection stands with `buf` received. A whole request is routed.
/// A request that cannot be parsed is given up. One that is not all there
/// waits for more bytes, unless the client has `closed`: then it is given up
/// too.
pub open spec fn gathered(buf: Seq<u8>, closed: bool) -> (StateView, ActionView) {
    match request_of(buf) {
        Ok(req) => routed(route_of(req)),
        Err(e) => if !closed && (e == ParseErrorView::EndOfStream || e
            == ParseErrorView::UnterminatedLine) {
            (StateView::ParsingRequestLine { buf }, ActionView::Receive)
        } else if !closed && e == ParseErrorView::UnterminatedHeaders {
            (StateView::ParsingHeaders { buf }, ActionView::Receive)
        } else {
            (StateView::Failed(e), ActionView::Close)
        },
    }
}

/// Where a connection stands once the file at `path` was opened.
pub open spec fn opened(path: Seq<char>, mode: u32) -> (StateView, ActionView) {
    match handler_of(path, mode & EXECUTE_BITS != 0) {
        HandlerView::Cgi(call) => (StateView::InvokingCgi, ActionView::Run(call)),
        HandlerView::Static { path } => (StateView::ServingStatic { path }, ActionView::ReadFile),
        HandlerView::NotFound => (
            StateView::Responding,
            ActionView::Send(encode_utf8(not_found_text())),
        ),
    }
}

/// The state that follows `state` on `event`, and what is to be done then.
///
/// While the request is parsed, bytes are added to those received before. A
/// file that cannot be opened is answered with the not-found page; a file
/// that cannot be read and a program that cannot be run are answered with
/// the server-error page. Once the connection is over or the request given
/// up, nothing changes any more. An event that the state did not ask for
/// ends the connection.
pub open spec fn next(state: StateView, event: EventView) -> (StateView, ActionView) {
    match state {
        StateView::ParsingRequestLine { buf } | StateView::ParsingHeaders { buf } => match event {
            EventView::Received(bytes) => gathered(buf + bytes, false),
            EventView::Closed => gathered(buf, true),
            _ => (StateView::Done, ActionView::Close),
        },
        StateView::ResolvingTarget { path } => match event {
            EventView::Opened { mode } => opened(path, mode),
            EventView::OpenFailed => (
                StateView::Responding,
                ActionView::Send(encode_utf8(not_found_text())),
            ),
            _ => (StateView::Done, ActionView::Close),
        },
        StateView::ServingStatic { path } => match event {
            EventView::Contents(bytes) => (
                StateView::Responding,
                ActionView::Send(ok_response(bytes)),
            ),
            EventView::Failed => (
                StateView::Responding,
                ActionView::Send(encode_utf8(server_error_text())),
            ),
            _ => (StateView::Done, ActionView::Close),
        },
        StateView::InvokingCgi => match event {
            EventView::Output(bytes) => (
                StateView::Responding,
                ActionView::Send(ok_response(bytes)),
            ),
            EventView::Failed => (
                StateView::Responding,
                ActionView::Send(encode_utf8(server_error_text())),
            ),
            _ => (StateView::Done, ActionView::Close),
        },
        StateView::Responding => (StateView::Done, ActionView::Close),
        StateView::Done => (StateView::Done, ActionView::Close),
        StateView::Failed(e) => (StateView::Failed(e), ActionView::Close),
    }
}

/// A connection that was just accepted: nothing was received, and bytes are
/// to be received.
pub fn start() -> (r: (State, Action))
    ensures
        r.0@ == (StateView::ParsingRequestLine { buf: Seq::empty() }),
        r.1@ == ActionView::Receive,
{
    (State::ParsingRequestLine { buf: Vec::new() }, Action::Receive)
}

fn take(route: Route) -> (r: (State, Action))
    ensures
        (r.0@, r.1@) == routed(route@),
{
    match route {
        Route::Cgi(call) => (State::InvokingCgi, Action::Run(call)),
        Route::Lookup { path } => {
            let target = path.clone();
            (State::ResolvingTarget { path }, Action::Open { path: target })
        },
    }
}

fn gather(buf: Vec<u8>, closed: bool) -> (r: (State, Action))
    ensures
        (r.0@, r.1@) == gathered(buf@, closed),
{
    match accept(buf.as_slice()) {
        Ok(req) => take(response(req)),
        Err(e) => {
            if closed {
                (State::Failed(e), Action::Close)
            } else {
                match e {
                    ParseError::EndOfStream | ParseError::UnterminatedLine => (
                        State::ParsingRequestLine { buf },
                        Action::Receive,
                    ),
                    ParseError::UnterminatedHeaders => (
                        State::ParsingHeaders { buf },
                        Action::Receive,
                    ),
                    _ => (State::Failed(e), Action::Close),
                }
            }
        },
    }
}

fn receive(buf: Vec<u8>, event: Event) -> (r: (State, Action))
    ensures
        (r.0@, r.1@) == match event@ {
            EventView::Received(bytes) => gathered(buf@ + bytes, false),
            EventView::Closed => gathered(buf@, true),
            _ => (StateView::Done, ActionView::Close),
        },
{
    match event {
        Event::Received(bytes) => {
            let mut buf = buf;
            let mut bytes = bytes;
            buf.append(&mut bytes);
            gather(buf, false)
        },
        Event::Closed => gather(buf, true),
        _ => (State::Done, Action::Close),
    }
}

/// Takes a connection from `state` to its next state on `event`, and says
/// what is to be done then.
pub fn step(state: State, event: Event) -> (r: (State, Action))
    ensures
        (r.0@, r.1@) == next(state@, event@),
{
    match state {
        State::ParsingRequestLine { buf } => receive(buf, event),
        State::ParsingHeaders { buf } => receive(buf, event),
        State::ResolvingTarget { path } => match event {
            Event::Opened { mode } => match route_target(Some(resolve_target(path, mode))) {
                Handler::Cgi(call) => (State::InvokingCgi, Action::Run(call)),
                Handler::Static { path } => (State::ServingStatic { path }, Action::ReadFile),
                Handler::NotFound => (State::Responding, Action::Send(slice_to_vec(not_found()))),
            },
            Event::OpenFailed => (State::Responding, Action::Send(slice_to_vec(not_found()))),
            _ => (State::Done, Action::Close),
        },
        State::ServingStatic { path } => match event {
            Event::Contents(bytes) => (
                State::Responding,
                Action::Send(serv_file(bytes.as_slice())),
            ),
            Event::Failed => (State::Responding, Action::Send(slice_to_vec(server_error()))),
            _ => (State::Done, Action::Close),
        },
        State::InvokingCgi => match event {
            Event::Output(bytes) => (State::Responding, Action::Send(cgi_answer(bytes.as_slice()))),
            Event::Failed => (State::Responding, Action::Send(slice_to_vec(server_error()))),
            _ => (State::Done, Action::Close),
        },
        State::Responding => (State::Done, Action::Close),
        State::Done => (State::Done, Action::Close),
        State::Failed(e) => (State::Failed(e), Action::Close),
    }
}

} // verus!
