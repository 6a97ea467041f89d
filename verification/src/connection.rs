//! One connection, step by step: the head of the request line by line, the
//! body where one is declared, then the handler's answer on the wire.
//!
//! Reading and writing are the caller's part. The caller performs the
//! `Action` that a step gives and hands back what came of it as the next
//! `Event`.
//!
//! Nothing here limits the number of header lines, the length of a line or
//! the length of a declared body, and nothing here knows of time: a caller
//! that serves clients it does not trust sets its own limits and deadlines
//! on the reads, and hands in `Event::ReadFailed` where one is passed.

use crate::handler::HandlerError;
use crate::methods::Method;
use crate::request::{parse_line, ParseError, ParseErrorView, Request, RequestView};
use crate::response::Response;
use crate::server::{Handlers, HandlersView};
use crate::text::{
    chars_of, find_char, has_prefix, index_of, parse_decimal, parse_usize, range_is, trim,
    trim_range,
};
use vstd::prelude::*;
use vstd::utf8::{decode_utf8, encode_utf8, encode_utf8_decode_utf8, valid_utf8};

verus! {

/// The texts of `lines`.
pub open spec fn texts(lines: Seq<String>) -> Seq<Seq<char>> {
    lines.map_values(|line: String| line@)
}

/// The length that a `Content-Length` header line gives: the line is
/// trimmed and split at its colons, and the part after the first colon,
/// trimmed, is read as a number. Zero where there is no such number.
pub open spec fn content_length_value(line: Seq<char>) -> usize {
    let t = trim(line);
    let colon = index_of(t, ':', 0);
    if colon >= t.len() {
        0
    } else {
        let rest = t.subrange(colon + 1, t.len() as int);
        let field = rest.subrange(0, index_of(rest, ':', 0));
        match parse_usize(trim(field)) {
            Some(n) => n,
            None => 0,
        }
    }
}

/// The length of the body that the header lines from index `from` on
/// declare: what the first line that begins with `Content-Length:` gives,
/// or zero where there is no such line.
pub open spec fn declared_length(lines: Seq<Seq<char>>, from: int) -> usize
    decreases lines.len() - from,
{
    if !(0 <= from < lines.len()) {
        0
    } else if "Content-Length:"@.is_prefix_of(lines[from]) {
        content_length_value(lines[from])
    } else {
        declared_length(lines, from + 1)
    }
}

/// What the head of a request parses to: the request of its first line,
/// and the length of the body to read, which is zero for a `GET`.
pub open spec fn parse_head(lines: Seq<Seq<char>>) -> Result<(RequestView, usize), ParseErrorView> {
    if lines.len() == 0 {
        Err(ParseErrorView::NoRequestLine)
    } else {
        match parse_line(lines[0]) {
            Err(e) => Err(e),
            Ok(request) => Ok(
                (
                    request,
                    match request.method {
                        Method::GET => 0,
                        Method::POST => declared_length(lines, 1),
                    },
                ),
            ),
        }
    }
}

/// The outcome of parsing a head as plain values.
pub open spec fn parsed_head_view(r: Result<(Request, usize), ParseError>) -> Result<
    (RequestView, usize),
    ParseErrorView,
> {
    match r {
        Ok((request, length)) => Ok((request@, length)),
        Err(e) => Err(e@),
    }
}

/// Reads the length that a `Content-Length` header line gives.
pub fn content_length_of(line: &str) -> (n: usize)
    ensures
        n == content_length_value(line@),
{
    let chars = chars_of(line);
    let s = chars.as_slice();
    let (a, b) = trim_range(s, 0, s.len());
    assert(s@.subrange(0, s.len() as int) =~= s@);
    let ghost t = s@.subrange(a as int, b as int);
    let colon = find_char(s, ':', a, b);
    if colon >= b {
        return 0;
    }
    let ghost rest = t.subrange(colon - a + 1, t.len() as int);
    assert(rest =~= s@.subrange(colon + 1, b as int));
    let end = find_char(s, ':', colon + 1, b);
    let ghost field = rest.subrange(0, index_of(rest, ':', 0));
    assert(field =~= s@.subrange(colon + 1, end as int));
    let (value_start, value_end) = trim_range(s, colon + 1, end);
    match parse_decimal(s, value_start, value_end) {
        Some(n) => n,
        None => 0,
    }
}

/// Parses the head of a request: its lines up to the empty one. The
/// first is the request line; for a `POST`, the first of the others that
/// begins with `Content-Length:` gives the length of the body.
pub fn parse_request(lines: &[String]) -> (r: Result<(Request, usize), ParseError>)
    ensures
        parsed_head_view(r) == parse_head(texts(lines@)),
{
    if lines.len() == 0 {
        return Err(ParseError::NoRequestLine);
    }
    let req = match Request::parse(lines[0].as_str()) {
        Ok(req) => req,
        Err(e) => {
            return Err(e);
        },
    };
    let content_length = match req.method {
        Method::GET => 0,
        Method::POST => {
            let mut length: usize = 0;
            let mut i: usize = 1;
            while i < lines.len()
                invariant_except_break
                    length == 0,
                    declared_length(texts(lines@), 1) == declared_length(texts(lines@), i as int),
                invariant
                    1 <= i <= lines.len(),
                ensures
                    length == declared_length(texts(lines@), 1),
                decreases lines.len() - i,
            {
                let line = lines[i].as_str();
                if has_prefix(chars_of(line).as_slice(), "Content-Length:") {
                    length = content_length_of(line);
                    break ;
                }
                i = i + 1;
            }
            length
        },
    };
    Ok((req, content_length))
}

/// Whether `line` ends the head of a request: an empty line, or no line
/// at all.
pub open spec fn ends_head(line: Seq<char>) -> bool {
    line.len() == 0 || line == "\r\n"@ || line == "\r"@
}

/// Tells whether `line` ends the head of a request.
pub fn is_end_of_head(line: &str) -> (b: bool)
    ensures
        b == ends_head(line@),
{
    let chars = chars_of(line);
    let s = chars.as_slice();
    assert(s@.subrange(0, s.len() as int) =~= s@);
    s.len() == 0 || range_is(s, 0, s.len(), "\r\n") || range_is(s, 0, s.len(), "\r")
}

/// The text of a body: what its bytes encode, or the empty text where
/// they are not UTF-8.
pub open spec fn body_text(bytes: Seq<u8>) -> Seq<char> {
    if valid_utf8(bytes) {
        decode_utf8(bytes)
    } else {
        Seq::empty()
    }
}

/// `String::from_utf8` of the standard library: the text that `bytes`
/// encode, byte for byte, where they are UTF-8, and nothing where they
/// are not.
#[verifier::external_body]
fn string_from_utf8(bytes: Vec<u8>) -> (r: Option<String>)
    ensures
        r is Some <==> valid_utf8(bytes@),
        r matches Some(text) ==> encode_utf8(text@) == bytes@,
{
    String::from_utf8(bytes).ok()
}

/// The text of a body.
pub fn text_of_body(bytes: Vec<u8>) -> (text: String)
    ensures
        text@ == body_text(bytes@),
{
    match string_from_utf8(bytes) {
        Some(text) => {
            proof {
                encode_utf8_decode_utf8(text@);
            }
            text
        },
        None => String::new(),
    }
}

/// What is written to a connection that was given up.
pub open spec fn failure_bytes() -> Seq<u8> {
    encode_utf8("HTTP/1.1 501 Internal Server Error\r\n\r\n"@)
}

/// Why a connection was given up.
#[derive(Debug, PartialEq, Eq)]
pub enum ConnectionError {
    /// The connection could not be read to the end of the request.
    Read,
    /// The caller handed in something that was not asked for.
    Unexpected,
    /// The head of the request was refused.
    Parse(ParseError),
    /// The handler failed.
    Handler(HandlerError),
}

impl ConnectionError {
    /// The message that describes the error.
    pub open spec fn message(self) -> Seq<char> {
        match self {
            ConnectionError::Read => "Error reading request"@,
            ConnectionError::Unexpected => "Unexpected event"@,
            ConnectionError::Parse(e) => "Error parsing request: "@ + e@.message(),
            ConnectionError::Handler(e) => e.message@,
        }
    }

    /// The message that describes the error.
    pub fn to_string(&self) -> (s: String)
        ensures
            s@ == self.message(),
    {
        match self {
            ConnectionError::Read => "Error reading request".to_owned(),
            ConnectionError::Unexpected => "Unexpected event".to_owned(),
            ConnectionError::Parse(e) => {
                let reason = e.to_string();
                "Error parsing request: ".to_owned().concat(reason.as_str())
            },
            ConnectionError::Handler(e) => e.to_string(),
        }
    }
}

/// How far a connection has come.
#[derive(Debug, PartialEq, Eq)]
pub enum Connection {
    /// The head is being read; these are its lines so far.
    ReadingHead(Vec<String>),
    /// The head was a `POST` that declares a body of this length, which is
    /// not zero: the body is being read.
    ReadingBody(Request, usize),
    /// The connection has been answered or given up.
    Closed,
}

/// What came of the action that the last step asked for.
#[derive(Debug, PartialEq, Eq)]
pub enum Event {
    /// The next line of the head, with its line end; empty at the end of
    /// the input.
    Line(String),
    /// The bytes of the body.
    Body(Vec<u8>),
    /// The read failed.
    ReadFailed,
}

/// What the caller is to do next.
#[derive(Debug, PartialEq, Eq)]
pub enum Action {
    /// Read a line and hand it back.
    ReadLine,
    /// Read exactly this many bytes and hand them back.
    ReadBody(usize),
    /// Write these bytes and close the connection.
    Respond(Vec<u8>),
    /// Report the error, write these bytes as far as the connection
    /// allows, and close it.
    Fail(ConnectionError, Vec<u8>),
}

/// Whether `action` delivers `outcome`: a response goes out framed, a
/// handler's error gives the connection up.
pub open spec fn delivers(outcome: Result<Response, HandlerError>, action: Action) -> bool {
    match outcome {
        Ok(response) => action matches Action::Respond(bytes) && bytes@ == response@.bytes(),
        Err(e) => action matches Action::Fail(ConnectionError::Handler(reason), bytes) && reason
            == e && bytes@ == failure_bytes(),
    }
}

/// Whether `action` gives the connection up for `error`.
pub open spec fn gives_up(error: ConnectionError, action: Action) -> bool {
    action matches Action::Fail(reason, bytes) && reason == error && bytes@ == failure_bytes()
}

/// Whether `action` answers `request`: it delivers an outcome that the
/// handler for the request's method and path may give.
pub open spec fn answers(handlers: HandlersView, request: Request, action: Action) -> bool {
    exists|outcome: Result<Response, HandlerError>|
        handlers.handler_for(request.method, request.route@).answers(request, outcome)
            && #[trigger] delivers(outcome, action)
}

/// Whether `next` is what one step makes of `state` and `event`.
///
/// While the head is read, each line is kept and another one asked for,
/// until the line that ends the head. Then the head is parsed. A refused
/// head gives the connection up. A request without a body to read is
/// answered at once. For a `POST` that declares a body, the body is asked
/// for; once it is there, its text is attached and the request answered.
/// A failed read, or an event that was not asked for, gives the
/// connection up.
pub open spec fn steps_to(
    handlers: HandlersView,
    state: Connection,
    event: Event,
    next: (Connection, Action),
) -> bool {
    match (state, event) {
        (Connection::ReadingHead(lines), Event::Line(line)) => {
            if !ends_head(line@) {
                &&& next.0 matches Connection::ReadingHead(kept)
                &&& kept@ == lines@.push(line)
                &&& next.1 == Action::ReadLine
            } else {
                match parse_head(texts(lines@)) {
                    Err(e) => {
                        &&& next.0 == Connection::Closed
                        &&& next.1 matches Action::Fail(ConnectionError::Parse(reason), bytes)
                        &&& reason@ == e
                        &&& bytes@ == failure_bytes()
                    },
                    Ok((head, length)) => {
                        if length == 0 {
                            &&& next.0 == Connection::Closed
                            &&& exists|request: Request|
                                request@ == head && #[trigger] answers(handlers, request, next.1)
                        } else {
                            &&& next.0 matches Connection::ReadingBody(request, expected)
                            &&& request@ == head
                            &&& expected == length
                            &&& next.1 == Action::ReadBody(length)
                        }
                    },
                }
            }
        },
        (Connection::ReadingBody(head, _), Event::Body(bytes)) => {
            &&& next.0 == Connection::Closed
            &&& exists|request: Request|
                request@ == head@.add_body(body_text(bytes@)).0 && #[trigger] answers(
                    handlers,
                    request,
                    next.1,
                )
        },
        (Connection::Closed, _) => {
            &&& next.0 == Connection::Closed
            &&& gives_up(ConnectionError::Unexpected, next.1)
        },
        (_, Event::ReadFailed) => {
            &&& next.0 == Connection::Closed
            &&& gives_up(ConnectionError::Read, next.1)
        },
        _ => {
            &&& next.0 == Connection::Closed
            &&& gives_up(ConnectionError::Unexpected, next.1)
        },
    }
}

/// The bytes that are written to a connection that was given up.
pub fn failure_response() -> (bytes: Vec<u8>)
    ensures
        bytes@ == failure_bytes(),
{
    "HTTP/1.1 501 Internal Server Error\r\n\r\n".as_bytes_vec()
}

/// Gives a connection up for `error`.
pub fn give_up(error: ConnectionError) -> (action: Action)
    ensures
        gives_up(error, action),
{
    Action::Fail(error, failure_response())
}

/// Puts the outcome of a handler on the wire: the response framed, or
/// the connection given up for the handler's error.
pub fn deliver(outcome: Result<Response, HandlerError>) -> (action: Action)
    ensures
        delivers(outcome, action),
{
    match outcome {
        Ok(response) => Action::Respond(Vec::<u8>::from(response)),
        Err(e) => give_up(ConnectionError::Handler(e)),
    }
}

impl Connection {
    /// A connection of which nothing has been read yet.
    pub fn new() -> (state: Self)
        ensures
            state matches Connection::ReadingHead(lines) && lines@.len() == 0,
    {
        Connection::ReadingHead(Vec::new())
    }
}

impl Handlers {
    /// Answers `request`: calls the handler for its method and path, or
    /// the handler for unknown routes, and puts the outcome on the wire.
    pub fn respond(&self, request: Request) -> (action: Action)
        ensures
            answers(self@, request, action),
    {
        let outcome = self.dispatch(request);
        let action = deliver(outcome);
        action
    }

    /// Takes a connection one step further: from its state and what came
    /// of the last action to its next state and the next action. A fresh
    /// connection starts with `Action::ReadLine`.
    pub fn step(&self, state: Connection, event: Event) -> (next: (Connection, Action))
        ensures
            steps_to(self@, state, event, next),
    {
        match (state, event) {
            (Connection::ReadingHead(lines), Event::Line(line)) => {
                if !is_end_of_head(line.as_str()) {
                    let mut lines = lines;
                    lines.push(line);
                    return (Connection::ReadingHead(lines), Action::ReadLine);
                }
                match parse_request(lines.as_slice()) {
                    Err(e) => (Connection::Closed, give_up(ConnectionError::Parse(e))),
                    Ok((request, length)) => {
                        if length == 0 {
                            (Connection::Closed, self.respond(request))
                        } else {
                            (Connection::ReadingBody(request, length), Action::ReadBody(length))
                        }
                    },
                }
            },
            (Connection::ReadingBody(request, _), Event::Body(bytes)) => {
                let mut request = request;
                let _ = request.add_body(text_of_body(bytes));
                (Connection::Closed, self.respond(request))
            },
            (Connection::Closed, _) => (Connection::Closed, give_up(ConnectionError::Unexpected)),
            (_, Event::ReadFailed) => (Connection::Closed, give_up(ConnectionError::Read)),
            _ => (Connection::Closed, give_up(ConnectionError::Unexpected)),
        }
    }
}

} // verus!
