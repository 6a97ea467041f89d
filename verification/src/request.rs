//! Requests: the parse of a request line and the attaching of a body.

use crate::methods::Method;
use crate::routes::Route;
use crate::text::{
    chars_of, is_whitespace, is_word, lemma_first_word, lemma_words_are_words, next_word, range_is,
    words, words_from,
};
use vstd::prelude::*;

verus! {

/// Why the head of a request was refused.
#[derive(Debug, PartialEq, Eq)]
pub enum ParseError {
    /// The head holds no line at all.
    NoRequestLine,
    /// The line holds no word at all.
    MissingMethod,
    /// The line ends after the method.
    MissingPath,
    /// The line ends after the path.
    MissingProtocol,
    /// The line goes on after the protocol.
    TrailingTokens,
    /// The protocol is not `HTTP/1.1`.
    UnsupportedProtocol,
    /// The method, given here, is neither `GET` nor `POST`.
    UnrecognizedMethod(String),
}

/// A `ParseError` with its text as a sequence of characters.
pub enum ParseErrorView {
    NoRequestLine,
    MissingMethod,
    MissingPath,
    MissingProtocol,
    TrailingTokens,
    UnsupportedProtocol,
    UnrecognizedMethod(Seq<char>),
}

impl View for ParseError {
    type V = ParseErrorView;

    open spec fn view(&self) -> ParseErrorView {
        match self {
            ParseError::NoRequestLine => ParseErrorView::NoRequestLine,
            ParseError::MissingMethod => ParseErrorView::MissingMethod,
            ParseError::MissingPath => ParseErrorView::MissingPath,
            ParseError::MissingProtocol => ParseErrorView::MissingProtocol,
            ParseError::TrailingTokens => ParseErrorView::TrailingTokens,
            ParseError::UnsupportedProtocol => ParseErrorView::UnsupportedProtocol,
            ParseError::UnrecognizedMethod(m) => ParseErrorView::UnrecognizedMethod(m@),
        }
    }
}

impl ParseErrorView {
    /// The message that describes the error.
    pub open spec fn message(self) -> Seq<char> {
        match self {
            ParseErrorView::NoRequestLine => "No request line found"@,
            ParseErrorView::MissingMethod => "No method found"@,
            ParseErrorView::MissingPath => "No URI found"@,
            ParseErrorView::MissingProtocol => "No protocol found"@,
            ParseErrorView::TrailingTokens => "Invalid request line: extra values after parts"@,
            ParseErrorView::UnsupportedProtocol => "Server can only work with HTTP/1.1"@,
            ParseErrorView::UnrecognizedMethod(m) => "Unrecognized method: "@ + m,
        }
    }
}

impl ParseError {
    /// The message that describes the error.
    pub fn to_string(&self) -> (s: String)
        ensures
            s@ == self@.message(),
    {
        match self {
            ParseError::NoRequestLine => "No request line found".to_owned(),
            ParseError::MissingMethod => "No method found".to_owned(),
            ParseError::MissingPath => "No URI found".to_owned(),
            ParseError::MissingProtocol => "No protocol found".to_owned(),
            ParseError::TrailingTokens => {
                "Invalid request line: extra values after parts".to_owned()
            },
            ParseError::UnsupportedProtocol => "Server can only work with HTTP/1.1".to_owned(),
            ParseError::UnrecognizedMethod(m) => {
                "Unrecognized method: ".to_owned().concat(m.as_str())
            },
        }
    }
}

/// A body was offered to a request that holds one already.
#[derive(Debug, PartialEq, Eq, Clone, Copy, Structural)]
pub enum BodyError {
    AlreadyExists,
}

impl BodyError {
    /// The message that describes the error.
    pub fn to_string(&self) -> (s: String)
        ensures
            s@ == "Body already exists in request"@,
    {
        "Body already exists in request".to_owned()
    }
}

/// A request: its method, its path and, for a `POST`, the body once it has
/// been attached.
#[derive(Eq, PartialEq, Debug)]
pub struct Request {
    pub method: Method,
    pub route: Route,
    pub body: Option<String>,
}

/// A request as plain values.
pub struct RequestView {
    pub method: Method,
    pub path: Seq<char>,
    pub body: Option<Seq<char>>,
}

impl View for Request {
    type V = RequestView;

    open spec fn view(&self) -> RequestView {
        RequestView {
            method: self.method,
            path: self.route@,
            body: match self.body {
                Some(b) => Some(b@),
                None => None,
            },
        }
    }
}

impl RequestView {
    /// Only a `POST` request holds a body.
    pub open spec fn well_formed(self) -> bool {
        self.body is Some ==> self.method == Method::POST
    }

    /// What attaching `body` makes of the request, and whether it is
    /// accepted: a `GET` request stays as it is; a `POST` request takes the
    /// body unless it holds one already.
    pub open spec fn add_body(self, body: Seq<char>) -> (RequestView, Result<(), BodyError>) {
        match self.method {
            Method::GET => (self, Ok(())),
            Method::POST => match self.body {
                None => (RequestView { body: Some(body), ..self }, Ok(())),
                Some(_) => (self, Err(BodyError::AlreadyExists)),
            },
        }
    }
}

/// What a request line parses to. The line is split into its words; there
/// must be exactly three of them: a method, a path and the protocol.
pub open spec fn parse_line(line: Seq<char>) -> Result<RequestView, ParseErrorView> {
    let w = words(line);
    if w.len() == 0 {
        Err(ParseErrorView::MissingMethod)
    } else if w.len() == 1 {
        Err(ParseErrorView::MissingPath)
    } else if w.len() == 2 {
        Err(ParseErrorView::MissingProtocol)
    } else if w.len() > 3 {
        Err(ParseErrorView::TrailingTokens)
    } else if w[2] != "HTTP/1.1"@ {
        Err(ParseErrorView::UnsupportedProtocol)
    } else if w[0] == Method::GET.token() {
        Ok(RequestView { method: Method::GET, path: w[1], body: None })
    } else if w[0] == Method::POST.token() {
        Ok(RequestView { method: Method::POST, path: w[1], body: None })
    } else {
        Err(ParseErrorView::UnrecognizedMethod(w[0]))
    }
}

/// A line whose words are a method's token, a path and `HTTP/1.1` parses
/// to the request for that path by that method, without a body.
pub proof fn lemma_parse_accepts_three_words(line: Seq<char>, method: Method, path: Seq<char>)
    requires
        words(line) == seq![method.token(), path, "HTTP/1.1"@],
    ensures
        parse_line(line) == Ok::<RequestView, ParseErrorView>(
            RequestView { method, path, body: None },
        ),
{
    reveal_strlit("GET");
    reveal_strlit("POST");
    assert("GET"@.len() != "POST"@.len());
}

/// The line that holds a method's token, a path without whitespace and
/// `HTTP/1.1`, with one space between them, parses to the request for
/// that path by that method, without a body.
pub proof fn lemma_parse_accepts_request_line(method: Method, path: Seq<char>)
    requires
        path.len() > 0,
        forall|k: int| 0 <= k < path.len() ==> !is_whitespace(#[trigger] path[k]),
    ensures
        parse_line(method.token() + seq![' '] + path + seq![' '] + "HTTP/1.1"@) == Ok::<
            RequestView,
            ParseErrorView,
        >(RequestView { method, path, body: None }),
{
    reveal_strlit("GET");
    reveal_strlit("POST");
    reveal_strlit("HTTP/1.1");
    let m = method.token();
    let v = "HTTP/1.1"@;
    let line = m + seq![' '] + path + seq![' '] + v;
    let a = m.len() as int;
    let b = a + 1 + path.len();
    let n = line.len() as int;
    lemma_first_word(line, 0, a);
    lemma_first_word(line, a + 1, b);
    lemma_first_word(line, b + 1, n);
    assert(line.subrange(0, a) =~= m);
    assert(line.subrange(a + 1, b) =~= path);
    assert(line.subrange(b + 1, n) =~= v);
    assert(words(line) =~= seq![m, path, v]);
    lemma_parse_accepts_three_words(line, method, path);
}

/// A line of more than three words is refused for what follows the
/// protocol, whatever its first three words are.
pub proof fn lemma_parse_refuses_fourth_word(line: Seq<char>)
    requires
        words(line).len() >= 4,
    ensures
        parse_line(line) == Err::<RequestView, ParseErrorView>(ParseErrorView::TrailingTokens),
{
}

/// A line of three words whose third is not `HTTP/1.1` is refused for its
/// protocol, whatever its method is.
pub proof fn lemma_parse_refuses_other_protocol(line: Seq<char>)
    requires
        words(line).len() == 3,
        words(line)[2] != "HTTP/1.1"@,
    ensures
        parse_line(line) == Err::<RequestView, ParseErrorView>(
            ParseErrorView::UnsupportedProtocol,
        ),
{
}

/// A `GET` request takes any body any number of times and stays as it is.
pub proof fn lemma_add_body_leaves_get(request: RequestView, body: Seq<char>)
    requires
        request.method == Method::GET,
    ensures
        request.add_body(body) == (request, Ok::<(), BodyError>(())),
{
}

/// A `POST` request without a body takes one body and refuses the next,
/// the same or another, keeping the first.
pub proof fn lemma_add_body_once(request: RequestView, first: Seq<char>, second: Seq<char>)
    requires
        request.method == Method::POST,
        request.body is None,
    ensures
        request.add_body(first).1 is Ok,
        request.add_body(first).0 == (RequestView { body: Some(first), ..request }),
        request.add_body(first).0.add_body(second) == (
            request.add_body(first).0,
            Err::<(), BodyError>(BodyError::AlreadyExists),
        ),
{
}

/// Attaching a body keeps a request well formed.
pub proof fn lemma_add_body_keeps_well_formed(request: RequestView, body: Seq<char>)
    requires
        request.well_formed(),
    ensures
        request.add_body(body).0.well_formed(),
{
}

/// The path of a parsed request is a word: it is not empty and holds no
/// whitespace. A parsed request holds no body, so it is well formed.
pub proof fn lemma_parsed_path_is_a_word(line: Seq<char>)
    ensures
        parse_line(line) matches Ok(request) ==> is_word(request.path) && request.body is None
            && request.well_formed(),
{
    lemma_words_are_words(line, 0);
}

/// The outcome of a parse as plain values.
pub open spec fn parsed_view(r: Result<Request, ParseError>) -> Result<
    RequestView,
    ParseErrorView,
> {
    match r {
        Ok(request) => Ok(request@),
        Err(e) => Err(e@),
    }
}

impl Request {
    /// A request for `route` by `method`, without a body.
    pub fn new(method: Method, route: Route) -> (r: Self)
        ensures
            r@ == (RequestView { method, path: route@, body: None }),
            r.method == method,
            r.route == route,
            r.body is None,
    {
        Request { method, route, body: None }
    }

    /// Parses a request line: `METHOD PATH HTTP/1.1`, the three separated
    /// by whitespace.
    pub fn parse(request_line: &str) -> (r: Result<Request, ParseError>)
        ensures
            parsed_view(r) == parse_line(request_line@),
    {
        let line = chars_of(request_line);
        let s = line.as_slice();
        let (method_start, method_end) = match next_word(s, 0) {
            Some(b) => b,
            None => {
                return Err(ParseError::MissingMethod);
            },
        };
        let (path_start, path_end) = match next_word(s, method_end) {
            Some(b) => b,
            None => {
                return Err(ParseError::MissingPath);
            },
        };
        let (protocol_start, protocol_end) = match next_word(s, path_end) {
            Some(b) => b,
            None => {
                return Err(ParseError::MissingProtocol);
            },
        };
        if next_word(s, protocol_end).is_some() {
            return Err(ParseError::TrailingTokens);
        }
        if !range_is(s, protocol_start, protocol_end, "HTTP/1.1") {
            return Err(ParseError::UnsupportedProtocol);
        }
        let method = if range_is(s, method_start, method_end, "GET") {
            Method::GET
        } else if range_is(s, method_start, method_end, "POST") {
            Method::POST
        } else {
            let method = request_line.substring_char(method_start, method_end);
            return Err(ParseError::UnrecognizedMethod(method.to_owned()));
        };
        Ok(Request::new(method, Route::new(request_line.substring_char(path_start, path_end))))
    }

    /// Attaches `body` to a `POST` request that has none yet. A `GET`
    /// request takes no body: the call succeeds and changes nothing.
    pub fn add_body(&mut self, body: String) -> (r: Result<(), BodyError>)
        ensures
            (final(self)@, r) == old(self)@.add_body(body@),
            final(self).method == old(self).method,
            final(self).route == old(self).route,
    {
        if let Method::POST = self.method {
            if self.body.is_none() {
                self.body = Some(body);
            } else {
                return Err(BodyError::AlreadyExists);
            }
        }
        Ok(())
    }
}

} // verus!
