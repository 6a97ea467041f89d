use crag_web::connection::{
    content_length_of, deliver, failure_response, give_up, is_end_of_head, text_of_body, Action,
    Connection, ConnectionError,
};
use crag_web::handler::HandlerError;
use crag_web::methods::Method;
use crag_web::response::{ContentType, Response};
use crag_web::routes::Route;
use crag_web::server::HandlerMap;
use crag_web::handler::{BoxedHandler, NotFoundPage};
use crag_web::request::Request;

#[test]
fn the_head_ends_with_an_empty_line() {
    assert!(is_end_of_head(""));
    assert!(is_end_of_head("\r\n"));
    assert!(is_end_of_head("\r"));
    assert!(!is_end_of_head("\n"));
    assert!(!is_end_of_head(" \r\n"));
    assert!(!is_end_of_head("\r\n\r\n"));
    assert!(!is_end_of_head("Host: example\r\n"));
}

#[test]
fn content_length_of_reads_the_part_after_the_first_colon() {
    assert_eq!(content_length_of("Content-Length: 13\r\n"), 13);
    assert_eq!(content_length_of("Content-Length:13"), 13);
    assert_eq!(content_length_of("Content-Length:\t 13 \t"), 13);
    assert_eq!(content_length_of("Content-Length: 13:99"), 13);
    assert_eq!(content_length_of("Content-Length: :13"), 0);
    assert_eq!(content_length_of("Content-Length: 1 3"), 0);
    assert_eq!(content_length_of("Content-Length"), 0);
    assert_eq!(content_length_of(""), 0);
    assert_eq!(content_length_of("X: 5"), 5);
}

#[test]
fn text_of_body_decodes_utf8_or_gives_nothing() {
    assert_eq!(text_of_body(b"Hello, World!".to_vec()), "Hello, World!");
    assert_eq!(text_of_body(Vec::new()), "");
    assert_eq!(
        text_of_body("gr\u{00fc}\u{00df}e \u{1F600}".as_bytes().to_vec()),
        "gr\u{00fc}\u{00df}e \u{1F600}"
    );
    // Not UTF-8: a lone continuation byte, a truncated sequence, an overlong
    // encoding, a surrogate.
    assert_eq!(text_of_body(vec![b'a', 0x80]), "");
    assert_eq!(text_of_body(vec![0xE2, 0x82]), "");
    assert_eq!(text_of_body(vec![0xC0, 0xAF]), "");
    assert_eq!(text_of_body(vec![0xED, 0xA0, 0x80]), "");
}

#[test]
fn a_given_up_connection_gets_a_501() {
    assert_eq!(
        failure_response(),
        b"HTTP/1.1 501 Internal Server Error\r\n\r\n".to_vec()
    );
    assert_eq!(
        give_up(ConnectionError::Read),
        Action::Fail(ConnectionError::Read, failure_response())
    );
}

#[test]
fn deliver_frames_a_response_and_gives_up_on_an_error() {
    assert_eq!(
        deliver(Ok(Response::Success(b"Hi".to_vec(), ContentType::PLAIN))),
        Action::Respond(
            b"HTTP/1.0 200 OK\r\nContent-Type: text/plain\r\nContent-Length: 2\r\n\r\nHi".to_vec()
        )
    );
    assert_eq!(
        deliver(Err(HandlerError::new("no luck"))),
        Action::Fail(
            ConnectionError::Handler(HandlerError::new("no luck")),
            failure_response()
        )
    );
    assert_eq!(
        ConnectionError::Handler(HandlerError::new("no luck")).to_string(),
        "no luck"
    );
}

#[test]
fn a_new_connection_has_read_nothing() {
    assert_eq!(Connection::new(), Connection::ReadingHead(Vec::new()));
}

#[test]
fn handler_map_keeps_one_handler_for_each_method_and_path() {
    let page = |n: u8| BoxedHandler::new(NotFoundPage { page: vec![n] });
    let ask = |map: &HandlerMap, method: Method, path: &str| {
        map.get(method, &Route::new(path))
            .map(|h| h.handle(Request::new(method, Route::new(path))))
    };
    let mut map = HandlerMap::new();
    assert!(!map.contains_key(Method::GET, &Route::new("/")));
    assert!(ask(&map, Method::GET, "/").is_none());
    map.insert(Method::GET, Route::new("/"), page(1));
    map.insert(Method::POST, Route::new("/"), page(2));
    map.insert(Method::GET, Route::new("/x"), page(3));
    assert!(map.contains_key(Method::GET, &Route::new("/")));
    assert!(map.contains_key(Method::POST, &Route::new("/")));
    assert!(map.contains_key(Method::GET, &Route::new("/x")));
    assert!(!map.contains_key(Method::POST, &Route::new("/x")));
    assert_eq!(
        ask(&map, Method::GET, "/"),
        Some(Ok(Response::NotFound(vec![1])))
    );
    assert_eq!(
        ask(&map, Method::POST, "/"),
        Some(Ok(Response::NotFound(vec![2])))
    );
    assert_eq!(
        ask(&map, Method::GET, "/x"),
        Some(Ok(Response::NotFound(vec![3])))
    );
    assert!(ask(&map, Method::POST, "/x").is_none());
    map.insert(Method::GET, Route::new("/"), page(4));
    assert_eq!(
        ask(&map, Method::GET, "/"),
        Some(Ok(Response::NotFound(vec![4])))
    );
    assert_eq!(
        ask(&map, Method::POST, "/"),
        Some(Ok(Response::NotFound(vec![2])))
    );
}
