//! The handler registry, its builder and the server that comes of it.

use crate::handler::{BoxedHandler, Handler, HandlerError};
use crate::methods::Method;
use crate::request::Request;
use crate::response::Response;
use crate::routes::Route;
use crate::threadpool::{check_pool_size, valid_pool_size, PoolCreationError};
use std::sync::Arc;
use vstd::hash_map::StringHashMap;
use vstd::prelude::*;

verus! {

/// The handlers of a server by method and path.
pub struct HandlerMap {
    get: StringHashMap<BoxedHandler>,
    post: StringHashMap<BoxedHandler>,
}

impl View for HandlerMap {
    type V = Map<(Method, Seq<char>), BoxedHandler>;

    /// The handler of each method and path that has one.
    closed spec fn view(&self) -> Map<(Method, Seq<char>), BoxedHandler> {
        Map::new(
            |key: (Method, Seq<char>)|
                match key.0 {
                    Method::GET => self.get@.contains_key(key.1),
                    Method::POST => self.post@.contains_key(key.1),
                },
            |key: (Method, Seq<char>)|
                match key.0 {
                    Method::GET => self.get@[key.1],
                    Method::POST => self.post@[key.1],
                },
        )
    }
}

impl HandlerMap {
    /// The map without handlers.
    pub fn new() -> (map: Self)
        ensures
            map@ == Map::<(Method, Seq<char>), BoxedHandler>::empty(),
    {
        HandlerMap { get: StringHashMap::new(), post: StringHashMap::new() }
    }

    /// Tells whether `method` and `route` have a handler.
    pub fn contains_key(&self, method: Method, route: &Route) -> (b: bool)
        ensures
            b == self@.contains_key((method, route@)),
    {
        match method {
            Method::GET => self.get.contains_key(route.route.as_str()),
            Method::POST => self.post.contains_key(route.route.as_str()),
        }
    }

    /// Gives `method` and `route` the handler `handler`, in place of the
    /// one they had, if any.
    pub fn insert(&mut self, method: Method, route: Route, handler: BoxedHandler)
        ensures
            final(self)@ == old(self)@.insert((method, route@), handler),
    {
        match method {
            Method::GET => {
                self.get.insert(route.route, handler);
            },
            Method::POST => {
                self.post.insert(route.route, handler);
            },
        }
    }

    /// The handler of `method` and `route`, if they have one.
    pub fn get(&self, method: Method, route: &Route) -> (r: Option<&BoxedHandler>)
        ensures
            match r {
                Some(handler) => self@.contains_key((method, route@)) && *handler == self@[(
                    method,
                    route@,
                )],
                None => !self@.contains_key((method, route@)),
            },
    {
        match method {
            Method::GET => self.get.get(route.route.as_str()),
            Method::POST => self.post.get(route.route.as_str()),
        }
    }
}

/// Why a handler was not registered.
#[derive(Debug, PartialEq, Eq)]
pub enum RegistrationError {
    /// The method and the path have a handler already.
    DuplicateRoute(Method, Route),
    /// The builder holds a handler for unknown routes already.
    DuplicateErrorHandler,
}

/// A `RegistrationError` as plain values.
pub enum RegistrationErrorView {
    DuplicateRoute(Method, Seq<char>),
    DuplicateErrorHandler,
}

impl View for RegistrationError {
    type V = RegistrationErrorView;

    open spec fn view(&self) -> RegistrationErrorView {
        match self {
            RegistrationError::DuplicateRoute(method, route) => {
                RegistrationErrorView::DuplicateRoute(*method, route@)
            },
            RegistrationError::DuplicateErrorHandler => {
                RegistrationErrorView::DuplicateErrorHandler
            },
        }
    }
}

impl RegistrationErrorView {
    /// The message that describes the error.
    pub open spec fn message(self) -> Seq<char> {
        match self {
            RegistrationErrorView::DuplicateRoute(method, path) => {
                "Handler already registered for "@ + method.token() + " "@ + path
            },
            RegistrationErrorView::DuplicateErrorHandler => "Error handler already registered"@,
        }
    }
}

impl RegistrationError {
    /// The message that describes the error.
    pub fn to_string(&self) -> (s: String)
        ensures
            s@ == self@.message(),
    {
        match self {
            RegistrationError::DuplicateRoute(method, route) => {
                "Handler already registered for ".to_owned().concat(method.as_str()).concat(
                    " ",
                ).concat(route.route.as_str())
            },
            RegistrationError::DuplicateErrorHandler => {
                "Error handler already registered".to_owned()
            },
        }
    }
}

/// Why a server was not made.
#[derive(Debug, PartialEq, Eq)]
pub enum ServerError {
    /// The builder holds no handler for unknown routes.
    NoErrorHandler,
    /// The server could not listen on its address; the text says why.
    ServerCreation(String),
    /// The number of workers is not one that a pool can have.
    PoolSizeError(PoolCreationError),
}

impl ServerError {
    /// The message that describes the error.
    pub open spec fn message(self) -> Seq<char> {
        match self {
            ServerError::NoErrorHandler => "Error: No error handler defined"@,
            ServerError::ServerCreation(reason) => reason@,
            ServerError::PoolSizeError(_) => "ZeroSize"@,
        }
    }

    /// The message that describes the error.
    pub fn to_string(&self) -> (s: String)
        ensures
            s@ == self.message(),
    {
        match self {
            ServerError::NoErrorHandler => "Error: No error handler defined".to_owned(),
            ServerError::ServerCreation(reason) => reason.clone(),
            ServerError::PoolSizeError(e) => e.to_string(),
        }
    }
}

/// What a builder holds, as plain values: the handlers by method and path,
/// and the handler for unknown routes once there is one.
pub struct BuilderView {
    pub routes: Map<(Method, Seq<char>), BoxedHandler>,
    pub fallback: Option<BoxedHandler>,
}

impl BuilderView {
    /// The builder after `handler` was registered for `method` and `path`.
    pub open spec fn with_route(
        self,
        method: Method,
        path: Seq<char>,
        handler: BoxedHandler,
    ) -> BuilderView {
        BuilderView { routes: self.routes.insert((method, path), handler), ..self }
    }

    /// The builder after `handler` was registered for unknown routes.
    pub open spec fn with_fallback(self, handler: BoxedHandler) -> BuilderView {
        BuilderView { fallback: Some(handler), ..self }
    }

    /// What comes of registering `handler` for `method` and `path`: the
    /// builder that holds it, unless they have a handler already.
    pub open spec fn register_handler(
        self,
        method: Method,
        path: Seq<char>,
        handler: BoxedHandler,
    ) -> Result<BuilderView, RegistrationErrorView> {
        if self.routes.contains_key((method, path)) {
            Err(RegistrationErrorView::DuplicateRoute(method, path))
        } else {
            Ok(self.with_route(method, path, handler))
        }
    }

    /// What comes of registering `handler` for unknown routes: the
    /// builder that holds it, unless there is such a handler already.
    pub open spec fn register_error_handler(self, handler: BoxedHandler) -> Result<
        BuilderView,
        RegistrationErrorView,
    > {
        if self.fallback is Some {
            Err(RegistrationErrorView::DuplicateErrorHandler)
        } else {
            Ok(self.with_fallback(handler))
        }
    }
}

/// Once a handler is registered for a method and a path, a second
/// registration for the same method and path is refused, whatever the
/// handlers are.
pub proof fn lemma_second_registration_is_refused(
    builder: BuilderView,
    method: Method,
    path: Seq<char>,
    first: BoxedHandler,
    second: BoxedHandler,
)
    ensures
        builder.register_handler(method, path, first) matches Ok(registered)
            ==> registered.register_handler(method, path, second) == Err::<
            BuilderView,
            RegistrationErrorView,
        >(RegistrationErrorView::DuplicateRoute(method, path)),
{
}

/// A registration leaves every other method and path as it was: what was
/// free stays free, and what had a handler keeps it.
pub proof fn lemma_registration_leaves_other_routes(
    builder: BuilderView,
    method: Method,
    path: Seq<char>,
    handler: BoxedHandler,
    other: (Method, Seq<char>),
)
    requires
        other != (method, path),
    ensures
        builder.register_handler(method, path, handler) matches Ok(registered) ==> {
            &&& registered.routes.contains_key(other) == builder.routes.contains_key(other)
            &&& builder.routes.contains_key(other) ==> registered.routes[other]
                == builder.routes[other]
            &&& registered.fallback == builder.fallback
        },
{
}

/// Once a handler is registered for unknown routes, a second such
/// registration is refused, whatever the handlers are.
pub proof fn lemma_second_fallback_is_refused(
    builder: BuilderView,
    first: BoxedHandler,
    second: BoxedHandler,
)
    ensures
        builder.register_error_handler(first) matches Ok(registered)
            ==> registered.register_error_handler(second) == Err::<
            BuilderView,
            RegistrationErrorView,
        >(RegistrationErrorView::DuplicateErrorHandler),
{
}

/// Collects the handlers of a server. Each method and path takes one
/// handler, and the server one handler for unknown routes.
pub struct ServerBuilder {
    handlers: HandlerMap,
    error_handler: Option<BoxedHandler>,
}

impl View for ServerBuilder {
    type V = BuilderView;

    closed spec fn view(&self) -> BuilderView {
        BuilderView { routes: self.handlers@, fallback: self.error_handler }
    }
}

/// The handlers of a server: one for each method and path that has one,
/// and one for all others.
pub struct Handlers {
    valid_handlers: HandlerMap,
    error_handler: BoxedHandler,
}

/// The handlers of a server as plain values.
pub struct HandlersView {
    pub routes: Map<(Method, Seq<char>), BoxedHandler>,
    pub fallback: BoxedHandler,
}

impl HandlersView {
    /// The handler that answers requests for `path` by `method`: the one
    /// registered for exactly them, or else the one for unknown routes.
    pub open spec fn handler_for(self, method: Method, path: Seq<char>) -> BoxedHandler {
        if self.routes.contains_key((method, path)) {
            self.routes[(method, path)]
        } else {
            self.fallback
        }
    }
}

impl View for Handlers {
    type V = HandlersView;

    closed spec fn view(&self) -> HandlersView {
        HandlersView { routes: self.valid_handlers@, fallback: self.error_handler }
    }
}

impl Handlers {
    /// Answers `req` with the handler for unknown routes.
    pub fn handle_error(&self, req: Request) -> (outcome: Result<Response, HandlerError>)
        ensures
            self@.fallback.answers(req, outcome),
    {
        self.error_handler.handle(req)
    }

    /// Answers `req` with the handler registered for its method and path,
    /// or with the handler for unknown routes where there is none.
    pub fn dispatch(&self, req: Request) -> (outcome: Result<Response, HandlerError>)
        ensures
            self@.handler_for(req.method, req.route@).answers(req, outcome),
    {
        match self.valid_handlers.get(req.method, &req.route) {
            Some(handler) => handler.handle(req),
            None => self.handle_error(req),
        }
    }
}

/// A server ready to run: what it listens on, the number of its workers,
/// which is at least one, and its handlers, which no longer change.
pub struct Server<L> {
    listener: L,
    pool_size: usize,
    handlers: Arc<Handlers>,
}

/// A server as plain values.
pub struct ServerView<L> {
    pub listener: L,
    pub pool_size: usize,
    pub handlers: HandlersView,
}

impl<L> View for Server<L> {
    type V = ServerView<L>;

    closed spec fn view(&self) -> ServerView<L> {
        ServerView {
            listener: self.listener,
            pool_size: self.pool_size,
            handlers: self.handlers@,
        }
    }
}

/// Whether `res` is what comes of finalizing `builder` for `pool_size`
/// workers when the attempt to listen ended in `bound`. What is missing
/// is reported in this order: the handler for unknown routes, the
/// listener, a worker.
pub open spec fn finalized<L>(
    builder: BuilderView,
    bound: Result<L, String>,
    pool_size: usize,
    res: Result<Server<L>, ServerError>,
) -> bool {
    if builder.fallback is None {
        res == Err::<Server<L>, ServerError>(ServerError::NoErrorHandler)
    } else if let Err(reason) = bound {
        res == Err::<Server<L>, ServerError>(ServerError::ServerCreation(reason))
    } else if !valid_pool_size(pool_size) {
        res == Err::<Server<L>, ServerError>(
            ServerError::PoolSizeError(PoolCreationError::ZeroSize),
        )
    } else {
        &&& res matches Ok(server)
        &&& bound == Ok::<L, String>(server@.listener)
        &&& server@.pool_size == pool_size
        &&& server@.handlers == (HandlersView {
            routes: builder.routes,
            fallback: builder.fallback->0,
        })
    }
}

/// A server is made only of a builder that holds a handler for unknown
/// routes, with a listener and with one worker at least; and of such a
/// builder, with these, always.
pub proof fn lemma_finalize_needs_fallback_listener_and_worker<L>(
    builder: BuilderView,
    bound: Result<L, String>,
    pool_size: usize,
    res: Result<Server<L>, ServerError>,
)
    requires
        finalized(builder, bound, pool_size, res),
    ensures
        res is Ok <==> builder.fallback is Some && bound is Ok && pool_size >= 1,
        builder.fallback is None ==> res is Err,
        pool_size == 0 ==> res is Err,
{
}

impl ServerBuilder {
    /// Tells whether a handler for unknown routes is registered.
    pub fn has_error_handler(&self) -> (b: bool)
        ensures
            b == self@.fallback is Some,
    {
        self.error_handler.is_some()
    }

    /// Registers `handler` for requests for `r` by `method`. Refused where
    /// they have a handler already.
    pub fn register_handler<H: Handler + 'static>(
        self,
        method: Method,
        r: Route,
        handler: H,
    ) -> (res: Result<Self, RegistrationError>)
        requires
            forall|request: Request| #[trigger] handler.accepts(request),
        ensures
            res is Ok <==> !self@.routes.contains_key((method, r@)),
            match res {
                Ok(builder) => {
                    let boxed = builder@.routes[(method, r@)];
                    &&& self@.register_handler(method, r@, boxed) == Ok::<
                        BuilderView,
                        RegistrationErrorView,
                    >(builder@)
                    &&& forall|request: Request, outcome: Result<Response, HandlerError>|
                        #[trigger] boxed.answers(request, outcome) == handler.answers(
                            request,
                            outcome,
                        )
                },
                Err(e) => forall|boxed: BoxedHandler|
                    #[trigger] self@.register_handler(method, r@, boxed) == Err::<
                        BuilderView,
                        RegistrationErrorView,
                    >(e@),
            },
    {
        if self.handlers.contains_key(method, &r) {
            return Err(RegistrationError::DuplicateRoute(method, r));
        }
        let ServerBuilder { mut handlers, error_handler } = self;
        handlers.insert(method, r, BoxedHandler::new(handler));
        Ok(ServerBuilder { handlers, error_handler })
    }

    /// Registers `handler` for the requests that no other handler is
    /// registered for. Refused where there is such a handler already.
    pub fn register_error_handler<H: Handler + 'static>(self, handler: H) -> (res: Result<
        Self,
        RegistrationError,
    >)
        requires
            forall|request: Request| #[trigger] handler.accepts(request),
        ensures
            res is Ok <==> self@.fallback is None,
            match res {
                Ok(builder) => {
                    &&& builder@.fallback matches Some(boxed)
                    &&& self@.register_error_handler(boxed) == Ok::<
                        BuilderView,
                        RegistrationErrorView,
                    >(builder@)
                    &&& forall|request: Request, outcome: Result<Response, HandlerError>|
                        #[trigger] boxed.answers(request, outcome) == handler.answers(
                            request,
                            outcome,
                        )
                },
                Err(e) => forall|boxed: BoxedHandler|
                    #[trigger] self@.register_error_handler(boxed) == Err::<
                        BuilderView,
                        RegistrationErrorView,
                    >(e@),
            },
    {
        if self.error_handler.is_some() {
            return Err(RegistrationError::DuplicateErrorHandler);
        }
        let ServerBuilder { handlers, error_handler: _ } = self;
        Ok(ServerBuilder { handlers, error_handler: Some(BoxedHandler::new(handler)) })
    }

    /// Makes the server, given how the attempt to listen on its address
    /// ended: with a listener, or with the reason why there is none.
    pub fn finalize_bound<L>(self, bound: Result<L, String>, pool_size: usize) -> (res: Result<
        Server<L>,
        ServerError,
    >)
        ensures
            finalized(self@, bound, pool_size, res),
    {
        let ServerBuilder { handlers, error_handler } = self;
        let error_handler = match error_handler {
            Some(handler) => handler,
            None => {
                return Err(ServerError::NoErrorHandler);
            },
        };
        let listener = match bound {
            Ok(listener) => listener,
            Err(reason) => {
                return Err(ServerError::ServerCreation(reason));
            },
        };
        if let Err(e) = check_pool_size(pool_size) {
            return Err(ServerError::PoolSizeError(e));
        }
        Ok(
            Server {
                listener,
                pool_size,
                handlers: Arc::new(Handlers { valid_handlers: handlers, error_handler }),
            },
        )
    }

    /// Makes the server that listens on what `bind` gives and runs
    /// `pool_size` workers. Refused without a handler for unknown routes,
    /// and then `bind` is not called; refused where `bind` fails, and
    /// where `pool_size` is zero.
    pub fn finalize<L, B: FnOnce() -> Result<L, String>>(self, bind: B, pool_size: usize) -> (res:
        Result<Server<L>, ServerError>)
        requires
            self@.fallback is Some ==> call_requires(bind, ()),
        ensures
            self@.fallback is None ==> res == Err::<Server<L>, ServerError>(
                ServerError::NoErrorHandler,
            ),
            self@.fallback is Some ==> exists|bound: Result<L, String>|
                call_ensures(bind, (), bound) && #[trigger] finalized(self@, bound, pool_size, res),
            pool_size == 0 ==> res is Err,
    {
        if !self.has_error_handler() {
            return Err(ServerError::NoErrorHandler);
        }
        let bound = bind();
        self.finalize_bound(bound, pool_size)
    }
}

impl<L> Server<L> {
    #[verifier::type_invariant]
    spec fn has_a_worker(self) -> bool {
        valid_pool_size(self.pool_size)
    }

    /// What the server listens on.
    pub fn listener(&self) -> (listener: &L)
        ensures
            *listener == self@.listener,
    {
        &self.listener
    }

    /// The number of workers of the server, which is at least one.
    pub fn pool_size(&self) -> (size: usize)
        ensures
            size == self@.pool_size,
            valid_pool_size(size),
    {
        proof {
            use_type_invariant(self);
        }
        self.pool_size
    }

    /// The handlers of the server, to be shared with its workers.
    pub fn handlers(&self) -> (handlers: Arc<Handlers>)
        ensures
            handlers@ == self@.handlers,
    {
        self.handlers.clone()
    }
}

impl Server<()> {
    /// Starts a server: the builder without any handler.
    pub fn build() -> (builder: ServerBuilder)
        ensures
            builder@ == (BuilderView {
                routes: Map::<(Method, Seq<char>), BoxedHandler>::empty(),
                fallback: None,
            }),
    {
        ServerBuilder { handlers: HandlerMap::new(), error_handler: None }
    }
}

} // verus!
