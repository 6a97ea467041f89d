use crag_web::handler::{
    default_error_404_handler, BoxedHandler, Handler, HandlerError, NotFoundPage, DEFAULT_404_PAGE,
};
use crag_web::methods::Method;
use crag_web::request::Request;
use crag_web::response::{ContentType, Response};
use crag_web::routes::Route;

struct Fixed;

impl Handler for Fixed {
    fn handle(&self, _request: Request) -> Result<Response, HandlerError> {
        Ok(Response::NotFound(vec![1, 2, 3]))
    }
}

#[test]
fn test_default_error_handler() {
    let res = default_error_404_handler(Request::new(Method::GET, Route::new("foo")));
    let bytes_404: Vec<u8> = DEFAULT_404_PAGE.as_bytes().into();

    assert!(matches!(res, Ok(Response::NotFound(_))));

    if let Response::NotFound(body) = res.unwrap() {
        assert_eq!(body, bytes_404);
    }
}

#[test]
fn default_error_page_is_a_404_page() {
    assert!(DEFAULT_404_PAGE.contains("404 Not Found"));
    assert!(DEFAULT_404_PAGE.starts_with("<!DOCTYPE html>"));
}

#[test]
fn a_type_of_the_caller_can_be_a_handler() {
    let res = Fixed.handle(Request::new(Method::GET, Route::new("/")));
    assert_eq!(res, Ok(Response::NotFound(vec![1, 2, 3])));
}

#[test]
fn functions_and_closures_are_handlers() {
    let res = default_error_404_handler.handle(Request::new(Method::POST, Route::new("/x")));
    assert!(matches!(res, Ok(Response::NotFound(_))));
    let failing = |_req: Request| -> Result<Response, HandlerError> {
        Err(HandlerError::new("no luck"))
    };
    let res = failing.handle(Request::new(Method::GET, Route::new("/")));
    assert_eq!(res.err().unwrap().to_string(), "no luck");
}

#[test]
fn not_found_page_answers_every_request_with_its_page() {
    let handler = NotFoundPage {
        page: b"<h1>gone</h1>".to_vec(),
    };
    for request in [
        Request::new(Method::GET, Route::new("/")),
        Request::new(Method::POST, Route::new("/anything")),
    ] {
        assert_eq!(
            handler.handle(request),
            Ok(Response::NotFound(b"<h1>gone</h1>".to_vec()))
        );
    }
}

#[test]
fn boxed_handler_answers_as_the_handler_does() {
    let boxed = BoxedHandler::new(|req: Request| {
        Ok(Response::Success(
            req.route.route.into_bytes(),
            ContentType::PLAIN,
        ))
    });
    assert_eq!(
        boxed.handle(Request::new(Method::GET, Route::new("/echo"))),
        Ok(Response::Success(b"/echo".to_vec(), ContentType::PLAIN))
    );
    let boxed = BoxedHandler::new(NotFoundPage { page: vec![7] });
    assert_eq!(
        boxed.handle(Request::new(Method::GET, Route::new("/"))),
        Ok(Response::NotFound(vec![7]))
    );
}
