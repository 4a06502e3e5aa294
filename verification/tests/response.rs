use ferric::response::{
    append_bytes, copy_bytes, decimal, digit_str, not_found_document, resolve_path, respond,
    FileLookup, Response,
};

const DEFAULT_404: &str = "<html><body><h1>404 Not Found</h1></body></html>";

#[test]
fn existing_file_is_served_with_its_length() {
    let response = respond(FileLookup::Found(b"hello world".to_vec()), DEFAULT_404.as_bytes());
    assert_eq!(response.status_code(), 200);
    assert_eq!(response.reason(), "OK");
    assert_eq!(response.content_length(), 11);
    assert_eq!(response.body(), b"hello world".to_vec());
    assert_eq!(
        response.to_bytes(),
        b"HTTP/1.1 200 OK\r\nContent-Length: 11\r\n\r\nhello world".to_vec()
    );
}

#[test]
fn binary_file_body_is_untouched() {
    let contents: Vec<u8> = (0u8..=255).collect();
    let response = respond(FileLookup::Found(contents.clone()), b"nf");
    let mut expected = b"HTTP/1.1 200 OK\r\nContent-Length: 256\r\n\r\n".to_vec();
    expected.extend_from_slice(&contents);
    assert_eq!(response.to_bytes(), expected);
}

#[test]
fn empty_file_has_content_length_zero() {
    let response = respond(FileLookup::Found(Vec::new()), b"nf");
    assert_eq!(response.head(), "HTTP/1.1 200 OK\r\nContent-Length: 0\r\n\r\n");
    assert_eq!(response.to_bytes(), b"HTTP/1.1 200 OK\r\nContent-Length: 0\r\n\r\n".to_vec());
}

#[test]
fn missing_file_gets_the_default_document() {
    let document = not_found_document(None);
    assert_eq!(document, DEFAULT_404.as_bytes().to_vec());
    let response = respond(FileLookup::Missing, &document);
    assert_eq!(response.status_code(), 404);
    assert_eq!(response.reason(), "NOT FOUND");
    assert_eq!(response.body(), DEFAULT_404.as_bytes().to_vec());
    let expected = format!("HTTP/1.1 404 NOT FOUND\r\nContent-Length: 48\r\n\r\n{}", DEFAULT_404);
    assert_eq!(response.to_bytes(), expected.into_bytes());
}

#[test]
fn missing_file_gets_the_configured_document() {
    let document = not_found_document(Some(b"<p>nothing here</p>".to_vec()));
    assert_eq!(document, b"<p>nothing here</p>".to_vec());
    let response = respond(FileLookup::Missing, &document);
    assert_eq!(
        response.to_bytes(),
        b"HTTP/1.1 404 NOT FOUND\r\nContent-Length: 19\r\n\r\n<p>nothing here</p>".to_vec()
    );
}

#[test]
fn other_failure_is_a_server_error() {
    let response = respond(FileLookup::Failed, b"nf");
    assert!(matches!(response, Response::ServerError));
    assert_eq!(response.status_code(), 500);
    assert_eq!(response.reason(), "INTERNAL SERVER ERROR");
    assert_eq!(response.content_length(), 21);
    assert_eq!(
        response.to_bytes(),
        b"HTTP/1.1 500 INTERNAL SERVER ERROR\r\nContent-Length: 21\r\n\r\nInternal Server Error"
            .to_vec()
    );
}

#[test]
fn decimal_writes_numbers_without_leading_zeros() {
    assert_eq!(decimal(0), "0");
    assert_eq!(decimal(9), "9");
    assert_eq!(decimal(10), "10");
    assert_eq!(decimal(11), "11");
    assert_eq!(decimal(200), "200");
    assert_eq!(decimal(404), "404");
    assert_eq!(decimal(1_234_567_890), "1234567890");
    assert_eq!(decimal(usize::MAX), usize::MAX.to_string());
}

#[test]
fn digit_str_covers_all_digits() {
    let digits: Vec<&str> = (0..10).map(digit_str).collect();
    assert_eq!(digits, vec!["0", "1", "2", "3", "4", "5", "6", "7", "8", "9"]);
}

#[test]
fn append_and_copy_keep_every_byte() {
    let mut out = vec![1u8, 2];
    append_bytes(&mut out, &[3, 4, 5]);
    assert_eq!(out, vec![1, 2, 3, 4, 5]);
    append_bytes(&mut out, &[]);
    assert_eq!(out, vec![1, 2, 3, 4, 5]);
    assert_eq!(copy_bytes(&[9, 8, 7]), vec![9, 8, 7]);
    assert_eq!(copy_bytes(&[]), Vec::<u8>::new());
}

#[test]
fn request_path_is_mapped_under_the_root() {
    assert_eq!(resolve_path("/site", "/index.html"), "/site/index.html");
    assert_eq!(resolve_path("/site", "index.html"), "/site/index.html");
    assert_eq!(resolve_path("/site", "/a/b/c.css"), "/site/a/b/c.css");
    assert_eq!(resolve_path("", "/index.html"), "/index.html");
    assert_eq!(resolve_path("/site", ""), "/site/");
    assert_eq!(resolve_path("/süte", "/ü.html"), "/süte/ü.html");
}
