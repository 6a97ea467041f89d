use crag_web::response::{format_response, ContentType, Response};

#[test]
fn test_format_response() {
    let status_line = "status";
    let html_type = "content";
    let body = vec![1, 2, 3];
    let mut expected = format!(
        "{status_line}\r\nContent-Type: {html_type}\r\nContent-Length: {len}\r\n\r\n",
        status_line = status_line,
        html_type = html_type,
        len = body.len(),
    )
    .into_bytes();
    expected.extend(body.clone());

    assert_eq!(expected, format_response(status_line, html_type, body));
}

#[test]
fn test_bytes_from_html_response() {
    let body = vec![1, 2, 3];
    let response = Response::Success(body.clone(), ContentType::HTML);
    let expected = format!(
        "HTTP/1.0 200 OK\r\nContent-Type: text/html\r\nContent-Length: {len}\r\n\r\n",
        len = body.len()
    )
    .into_bytes();
    let mut expected = expected;
    expected.extend(&body);
    assert_eq!(Vec::<u8>::from(response), expected);

    let response = Response::NotFound(body.clone());
    let expected = format!(
        "HTTP/1.0 404 Not Found\r\nContent-Type: text/html\r\nContent-Length: {len}\r\n\r\n",
        len = body.len()
    )
    .into_bytes();
    let mut expected = expected;
    expected.extend(body);
    assert_eq!(Vec::<u8>::from(response), expected);
}

#[test]
fn test_bytes_from_css_response() {
    let body = vec![1, 2, 3];
    let response = Response::Success(body.clone(), ContentType::CSS);

    let expected = format!(
        "HTTP/1.0 200 OK\r\nContent-Type: text/css\r\nContent-Length: {len}\r\n\r\n",
        len = body.len()
    )
    .into_bytes();
    let mut expected = expected;
    expected.extend(&body);

    assert_eq!(Vec::<u8>::from(response), expected);
}

#[test]
fn test_bytes_from_js_response() {
    let body = vec![1, 2, 3];
    let response = Response::Success(body.clone(), ContentType::JS);

    let expected = format!(
        "HTTP/1.0 200 OK\r\nContent-Type: application/javascript\r\nContent-Length: {len}\r\n\r\n",
        len = body.len()
    )
    .into_bytes();
    let mut expected = expected;
    expected.extend(&body);

    assert_eq!(Vec::<u8>::from(response), expected);
}

#[test]
fn test_bytes_from_image_response() {
    let body = vec![1, 2, 3];
    let response = Response::Success(body.clone(), ContentType::IMAGE);

    let expected = format!(
        "HTTP/1.0 200 OK\r\nContent-Type: image/jpeg\r\nContent-Length: {len}\r\n\r\n",
        len = body.len()
    )
    .into_bytes();
    let mut expected = expected;
    expected.extend(&body);

    assert_eq!(Vec::<u8>::from(response), expected);
}

#[test]
fn test_str_from_html() {
    let content_type: &str = ContentType::HTML.into();
    assert_eq!("text/html", content_type);
}

#[test]
fn test_str_from_js() {
    let content_type: &str = ContentType::JS.into();
    assert_eq!("application/javascript", content_type);
}

#[test]
fn test_str_from_css() {
    let content_type: &str = ContentType::CSS.into();
    assert_eq!("text/css", content_type);
}

#[test]
fn test_str_from_image() {
    let content_type: &str = ContentType::IMAGE.into();
    assert_eq!("image/jpeg", content_type);
}

#[test]
fn str_from_plain() {
    let content_type: &str = ContentType::PLAIN.into();
    assert_eq!("text/plain", content_type);
}

#[test]
fn bytes_from_plain_response() {
    let response = Response::Success(b"Hi".to_vec(), ContentType::PLAIN);
    assert_eq!(
        Vec::<u8>::from(response),
        b"HTTP/1.0 200 OK\r\nContent-Type: text/plain\r\nContent-Length: 2\r\n\r\nHi".to_vec()
    );
}

#[test]
fn empty_body_has_length_zero() {
    let response = Response::Success(Vec::new(), ContentType::HTML);
    assert_eq!(
        Vec::<u8>::from(response),
        b"HTTP/1.0 200 OK\r\nContent-Type: text/html\r\nContent-Length: 0\r\n\r\n".to_vec()
    );
    let response = Response::NotFound(Vec::new());
    assert_eq!(
        Vec::<u8>::from(response),
        b"HTTP/1.0 404 Not Found\r\nContent-Type: text/html\r\nContent-Length: 0\r\n\r\n".to_vec()
    );
}

#[test]
fn binary_body_is_carried_unchanged() {
    let body: Vec<u8> = (0..=255u8).collect();
    let bytes = Vec::<u8>::from(Response::Success(body.clone(), ContentType::IMAGE));
    let head = b"HTTP/1.0 200 OK\r\nContent-Type: image/jpeg\r\nContent-Length: 256\r\n\r\n";
    assert_eq!(&bytes[..head.len()], &head[..]);
    assert_eq!(&bytes[head.len()..], &body[..]);
    assert_eq!(bytes.len(), head.len() + 256);
}

#[test]
fn content_length_counts_bytes_at_every_number_of_digits() {
    for len in [0usize, 1, 9, 10, 11, 99, 100, 101, 999, 1000, 12345, 100000] {
        let body = vec![b'x'; len];
        let bytes = format_response("S", "T", body.clone());
        let mut expected =
            format!("S\r\nContent-Type: T\r\nContent-Length: {len}\r\n\r\n").into_bytes();
        expected.extend(&body);
        assert_eq!(bytes, expected);
    }
}

#[test]
fn head_text_is_encoded_as_utf8() {
    let bytes = format_response("st\u{00e4}tus", "\u{65e5}\u{672c}", vec![0xff, 0x00]);
    let mut expected = "st\u{00e4}tus\r\nContent-Type: \u{65e5}\u{672c}\r\nContent-Length: 2\r\n\r\n"
        .as_bytes()
        .to_vec();
    expected.extend([0xffu8, 0x00]);
    assert_eq!(bytes, expected);
}
