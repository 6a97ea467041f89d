//! Handlers: what answers a request.

use crate::request::Request;
use crate::response::Response;
use vstd::prelude::*;
use vstd::utf8::encode_utf8;

verus! {

/// A handler's own account of why it could not answer.
#[derive(Debug, PartialEq, Eq)]
pub struct HandlerError {
    pub message: String,
}

impl HandlerError {
    /// The error that `message` describes.
    pub fn new(message: &str) -> (e: Self)
        ensures
            e.message@ == message@,
    {
        HandlerError { message: message.to_owned() }
    }

    /// The message that describes the error.
    pub fn to_string(&self) -> (s: String)
        ensures
            s@ == self.message@,
    {
        self.message.clone()
    }
}

/// What answers a request: a response, or the handler's own error.
///
/// `accepts` says on which requests the handler may be called, and
/// `answers` which outcomes it may give for a request. A server calls its
/// handlers on every request that reaches it, so it takes only handlers
/// that accept every request.
pub trait Handler: Send + Sync {
    /// Whether the handler may be called on `request`: on every request,
    /// unless the handler says otherwise.
    open spec fn accepts(&self, request: Request) -> bool {
        true
    }

    /// Whether `outcome` is one that the handler may give for `request`:
    /// any outcome, unless the handler says more.
    open spec fn answers(&self, request: Request, outcome: Result<Response, HandlerError>) -> bool {
        true
    }

    /// Answers `request`.
    fn handle(&self, request: Request) -> (outcome: Result<Response, HandlerError>)
        requires
            self.accepts(request),
        ensures
            self.answers(request, outcome),
    ;
}

/// Every function from a request to a response or an error is a handler.
impl<F> Handler for F where
    F: Fn(Request) -> Result<Response, HandlerError> + Send + Sync + 'static,
 {
    open spec fn accepts(&self, request: Request) -> bool {
        call_requires(*self, (request,))
    }

    open spec fn answers(&self, request: Request, outcome: Result<Response, HandlerError>) -> bool {
        call_ensures(*self, (request,), outcome)
    }

    fn handle(&self, request: Request) -> (outcome: Result<Response, HandlerError>) {
        self(request)
    }
}

/// A function used as a handler accepts what the function requires and
/// answers what the function ensures.
pub proof fn lemma_function_as_handler<F>(
    f: F,
    request: Request,
    outcome: Result<Response, HandlerError>,
) where F: Fn(Request) -> Result<Response, HandlerError> + Send + Sync + 'static
    ensures
        f.accepts(request) == call_requires(f, (request,)),
        f.answers(request, outcome) == call_ensures(f, (request,), outcome),
{
}

/// A handler behind a pointer, as a registry holds it. It accepts every
/// request.
pub struct BoxedHandler {
    handler: Box<dyn Handler>,
}

impl BoxedHandler {
    #[verifier::type_invariant]
    spec fn accepts_every_request(self) -> bool {
        forall|request: Request| #[trigger] self.handler.accepts(request)
    }

    /// Whether `outcome` is one that the handler may give for `request`.
    pub closed spec fn answers(
        &self,
        request: Request,
        outcome: Result<Response, HandlerError>,
    ) -> bool {
        self.handler.answers(request, outcome)
    }

    /// Puts `handler`, which accepts every request, behind a pointer.
    pub fn new<H: Handler + 'static>(handler: H) -> (boxed: Self)
        requires
            forall|request: Request| #[trigger] handler.accepts(request),
        ensures
            forall|request: Request, outcome: Result<Response, HandlerError>|
                #[trigger] boxed.answers(request, outcome) == handler.answers(request, outcome),
    {
        BoxedHandler { handler: Box::new(handler) }
    }

    /// Answers `request`.
    pub fn handle(&self, request: Request) -> (outcome: Result<Response, HandlerError>)
        ensures
            self.answers(request, outcome),
    {
        proof {
            use_type_invariant(self);
        }
        self.handler.handle(request)
    }
}

/// A handler that answers every request alike: nothing was found, and
/// here is a page that says so. The page is made once, where the server
/// is set up.
pub struct NotFoundPage {
    pub page: Vec<u8>,
}

impl Handler for NotFoundPage {
    open spec fn accepts(&self, request: Request) -> bool {
        true
    }

    open spec fn answers(&self, request: Request, outcome: Result<Response, HandlerError>) -> bool {
        outcome matches Ok(Response::NotFound(body)) && body@ == self.page@
    }

    fn handle(&self, request: Request) -> (outcome: Result<Response, HandlerError>) {
        Ok(Response::NotFound(self.page.clone()))
    }
}

/// The page that the default handler for unknown routes answers with.
pub const DEFAULT_404_PAGE: &'static str = "<!DOCTYPE html>\n\
<html lang=\"en\">\n\
<head>\n\
<meta charset=\"utf-8\">\n\
<title>404 Not Found</title>\n\
</head>\n\
<body>\n\
<h1>404 Not Found</h1>\n\
<p>The page you asked for does not exist.</p>\n\
</body>\n\
</html>\n";

/// The default handler for unknown routes: whatever the request, it
/// answers that nothing was found, with `DEFAULT_404_PAGE`.
pub fn default_error_404_handler(_request: Request) -> (outcome: Result<Response, HandlerError>)
    ensures
        outcome matches Ok(Response::NotFound(body)) && body@ == encode_utf8(DEFAULT_404_PAGE@),
{
    Ok(Response::NotFound(DEFAULT_404_PAGE.as_bytes_vec()))
}

} // verus!
