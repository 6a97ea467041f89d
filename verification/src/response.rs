//! Responses and their framing as bytes.

use crate::text::{
    decimal, decimal_bytes, decimal_value, is_decimal, lemma_decimal_round_trip,
    lemma_encode_utf8_concat,
};
use vstd::prelude::*;
use vstd::utf8::encode_utf8;

verus! {

/// What a handler answers: content of some type, or a page that says that
/// nothing was found.
#[derive(Debug, PartialEq, Eq)]
pub enum Response {
    Success(Vec<u8>, ContentType),
    NotFound(Vec<u8>),
}

/// The kinds of content that a response can hold.
#[allow(clippy::upper_case_acronyms)]
#[derive(Clone, Copy, Debug, PartialEq, Eq, Structural)]
pub enum ContentType {
    HTML,
    CSS,
    JS,
    IMAGE,
    PLAIN,
}

impl ContentType {
    /// The MIME type that the `Content-Type` header gives for this kind.
    pub open spec fn mime(self) -> Seq<char> {
        match self {
            ContentType::HTML => "text/html"@,
            ContentType::CSS => "text/css"@,
            ContentType::JS => "application/javascript"@,
            ContentType::IMAGE => "image/jpeg"@,
            ContentType::PLAIN => "text/plain"@,
        }
    }
}

impl vstd::std_specs::convert::FromSpecImpl<ContentType> for &'static str {
    open spec fn obeys_from_spec() -> bool {
        true
    }

    /// The MIME type of `content_type`.
    open spec fn from_spec(content_type: ContentType) -> &'static str {
        match content_type {
            ContentType::HTML => "text/html",
            ContentType::CSS => "text/css",
            ContentType::JS => "application/javascript",
            ContentType::IMAGE => "image/jpeg",
            ContentType::PLAIN => "text/plain",
        }
    }
}

impl From<ContentType> for &'static str {
    /// The MIME type of `content_type`.
    fn from(content_type: ContentType) -> (s: &'static str)
        ensures
            s@ == content_type.mime(),
    {
        match content_type {
            ContentType::HTML => "text/html",
            ContentType::CSS => "text/css",
            ContentType::JS => "application/javascript",
            ContentType::IMAGE => "image/jpeg",
            ContentType::PLAIN => "text/plain",
        }
    }
}

/// A response as plain values.
pub enum ResponseView {
    Success(Seq<u8>, ContentType),
    NotFound(Seq<u8>),
}

impl View for Response {
    type V = ResponseView;

    open spec fn view(&self) -> ResponseView {
        match self {
            Response::Success(body, content_type) => ResponseView::Success(body@, *content_type),
            Response::NotFound(body) => ResponseView::NotFound(body@),
        }
    }
}

/// The head of a response: the status line, the type and the length of
/// the content, and the empty line that ends the head.
pub open spec fn response_head(status_line: Seq<char>, content_type: Seq<char>, length: nat) -> Seq<
    char,
> {
    status_line + "\r\nContent-Type: "@ + content_type + "\r\nContent-Length: "@ + decimal(length)
        + "\r\n\r\n"@
}

/// A response on the wire: its head, encoded as UTF-8, and then the body
/// as it is.
pub open spec fn framed(status_line: Seq<char>, content_type: Seq<char>, body: Seq<u8>) -> Seq<u8> {
    encode_utf8(response_head(status_line, content_type, body.len())) + body
}

impl ResponseView {
    /// The status line, which depends on the variant alone.
    pub open spec fn status_line(self) -> Seq<char> {
        match self {
            ResponseView::Success(_, _) => "HTTP/1.0 200 OK"@,
            ResponseView::NotFound(_) => "HTTP/1.0 404 Not Found"@,
        }
    }

    /// The kind of the content; a page that says that nothing was found is
    /// HTML.
    pub open spec fn content_type(self) -> ContentType {
        match self {
            ResponseView::Success(_, content_type) => content_type,
            ResponseView::NotFound(_) => ContentType::HTML,
        }
    }

    /// The content.
    pub open spec fn body(self) -> Seq<u8> {
        match self {
            ResponseView::Success(body, _) => body,
            ResponseView::NotFound(body) => body,
        }
    }

    /// The response on the wire.
    pub open spec fn bytes(self) -> Seq<u8> {
        framed(self.status_line(), self.content_type().mime(), self.body())
    }
}

/// Every response on the wire ends with its body, unchanged, and right
/// before it stands the `Content-Length` header, which gives the length
/// of the body as a decimal numeral, and the empty line.
pub proof fn lemma_response_carries_body(response: ResponseView)
    ensures
        response.bytes().len() >= response.body().len(),
        response.bytes().subrange(
            response.bytes().len() - response.body().len(),
            response.bytes().len() as int,
        ) == response.body(),
        response.bytes() == encode_utf8(
            response.status_line() + "\r\nContent-Type: "@ + response.content_type().mime(),
        ) + encode_utf8("\r\nContent-Length: "@) + encode_utf8(
            decimal(response.body().len()),
        ) + encode_utf8("\r\n\r\n"@) + response.body(),
        is_decimal(decimal(response.body().len())),
        decimal_value(decimal(response.body().len())) == response.body().len(),
{
    let body = response.body();
    let start = response.status_line() + "\r\nContent-Type: "@ + response.content_type().mime();
    let digits = decimal(body.len());
    lemma_decimal_round_trip(body.len());
    lemma_encode_utf8_concat(start + "\r\nContent-Length: "@ + digits, "\r\n\r\n"@);
    lemma_encode_utf8_concat(start + "\r\nContent-Length: "@, digits);
    lemma_encode_utf8_concat(start, "\r\nContent-Length: "@);
}

/// Appends the bytes of `text` to `bytes`.
fn push_text(bytes: &mut Vec<u8>, text: &str)
    ensures
        final(bytes)@ == old(bytes)@ + encode_utf8(text@),
{
    bytes.extend_from_slice(text.as_bytes());
}

/// Frames a response: the status line, the two headers, an empty line and
/// the body.
pub fn format_response(status_line: &str, html_type: &str, body: Vec<u8>) -> (response: Vec<u8>)
    ensures
        response@ == framed(status_line@, html_type@, body@),
{
    let mut body = body;
    let length = decimal_bytes(body.len());
    let mut response: Vec<u8> = Vec::new();
    push_text(&mut response, status_line);
    push_text(&mut response, "\r\nContent-Type: ");
    push_text(&mut response, html_type);
    push_text(&mut response, "\r\nContent-Length: ");
    response.extend_from_slice(length.as_slice());
    push_text(&mut response, "\r\n\r\n");
    proof {
        let a = status_line@ + "\r\nContent-Type: "@;
        let b = a + html_type@;
        let c = b + "\r\nContent-Length: "@;
        let d = c + decimal(body@.len());
        lemma_encode_utf8_concat(status_line@, "\r\nContent-Type: "@);
        lemma_encode_utf8_concat(a, html_type@);
        lemma_encode_utf8_concat(b, "\r\nContent-Length: "@);
        lemma_encode_utf8_concat(c, decimal(body@.len()));
        lemma_encode_utf8_concat(d, "\r\n\r\n"@);
    }
    response.append(&mut body);
    response
}

impl vstd::std_specs::convert::FromSpecImpl<Response> for Vec<u8> {
    /// The conversion is stated over the bytes' view, by `from` itself.
    open spec fn obeys_from_spec() -> bool {
        false
    }

    open spec fn from_spec(res: Response) -> Vec<u8> {
        arbitrary()
    }
}

impl From<Response> for Vec<u8> {
    /// The response on the wire.
    fn from(res: Response) -> (bytes: Vec<u8>)
        ensures
            bytes@ == res@.bytes(),
    {
        match res {
            Response::Success(body, content_type) => {
                format_response("HTTP/1.0 200 OK", content_type.into(), body)
            },
            Response::NotFound(body) => {
                format_response("HTTP/1.0 404 Not Found", ContentType::HTML.into(), body)
            },
        }
    }
}

} // verus!
