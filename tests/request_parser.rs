use stockbit_order::http::{extract_query_param, Method, Request, RequestError};

fn parse(s: &str) -> Result<Request, RequestError> {
    Request::new(s.as_bytes())
}

#[test]
fn parses_request_line_headers_and_query() {
    let req = parse("GET /order/ws?token=abc&x=1 HTTP/1.1\r\nHost:  example.com \r\nUpgrade: websocket\r\n\r\n").ok().unwrap();
    assert_eq!(req.method, Method::GET);
    assert_eq!(req.path, "/order/ws");
    let params = req.params.as_ref().unwrap();
    assert_eq!(params.get("token"), Some("abc".to_string()));
    assert_eq!(params.get("x"), Some("1".to_string()));
    assert_eq!(req.headers.get("host"), Some("example.com".to_string()));
    assert_eq!(req.headers.get("upgrade"), Some("websocket".to_string()));
    assert_eq!(req.body, Some(String::new()));
}

#[test]
fn header_names_are_lower_cased_and_last_wins() {
    let req = parse("POST /order HTTP/1.1\r\nAuthorization: Bearer one\r\nAUTHORIZATION: Bearer two\r\nno colon line\r\n\r\n").ok().unwrap();
    assert_eq!(req.method, Method::POST);
    assert_eq!(req.headers.get("authorization"), Some("Bearer two".to_string()));
    assert!(!req.headers.contains_key("Authorization"));
    assert!(req.params.is_none());
}

#[test]
fn body_is_everything_after_first_blank_line() {
    let req = parse("POST /order HTTP/1.1\r\nContent-Type: application/json\r\n\r\n{\"a\":1}\r\n\r\ntrailing").ok().unwrap();
    assert_eq!(req.body, Some("{\"a\":1}\r\n\r\ntrailing".to_string()));
}

#[test]
fn no_blank_line_means_no_body() {
    let req = parse("GET /account HTTP/1.1\r\nHost: x\r\n").ok().unwrap();
    assert_eq!(req.body, None);
    assert_eq!(req.headers.get("host"), Some("x".to_string()));
}

#[test]
fn malformed_query_pairs_degrade_gracefully() {
    let (path, params) = Request::extract_query_param("/p?a&=&c=d=e&&k=v");
    assert_eq!(path, "/p");
    let params = params.unwrap();
    assert_eq!(params.get("a"), None);
    assert_eq!(params.get(""), Some(String::new()));
    assert_eq!(params.get("c"), Some("d".to_string()));
    assert_eq!(params.get("k"), Some("v".to_string()));
}

#[test]
fn query_pair_with_two_equals_keeps_first_value() {
    let params = extract_query_param("/x?a=b=c").unwrap();
    assert_eq!(params.get("a"), Some("b".to_string()));
}

#[test]
fn query_pair_without_equals_is_dropped() {
    let params = extract_query_param("/x?a").unwrap();
    assert!(!params.contains_key("a"));
    assert!(extract_query_param("/x").is_none());
}

#[test]
fn duplicate_query_keys_last_wins() {
    let params = extract_query_param("/x?t=1&t=2").unwrap();
    assert_eq!(params.get("t"), Some("2".to_string()));
}

#[test]
fn request_filling_the_buffer_is_too_large() {
    let mut raw = b"GET / HTTP/1.1\r\n".to_vec();
    raw.resize(1024, b'a');
    assert!(matches!(Request::new(&raw), Err(RequestError::TooLarge)));
    let big = vec![b'a'; 2048];
    assert!(matches!(Request::new(&big), Err(RequestError::TooLarge)));
    assert_eq!(RequestError::TooLarge.message(), "Request too large");
    let mut fits = b"GET / HTTP/1.1\r\n".to_vec();
    fits.resize(1023, b'a');
    assert!(Request::new(&fits).is_ok());
}

#[test]
fn request_line_errors() {
    assert!(matches!(parse(""), Err(RequestError::EmptyRequest)));
    assert!(matches!(parse("\r\n\r\nbody"), Err(RequestError::EmptyRequest)));
    assert!(matches!(parse("   \r\nHost: x"), Err(RequestError::MissingMethod)));
    assert!(matches!(parse("PUT /order HTTP/1.1\r\n\r\n"), Err(RequestError::MethodNotSupported)));
    assert!(matches!(parse("get /order HTTP/1.1\r\n\r\n"), Err(RequestError::MethodNotSupported)));
    assert!(matches!(parse("GET\r\n\r\n"), Err(RequestError::MissingPath)));
}

#[test]
fn method_names() {
    assert_eq!(Method::try_from("GET"), Ok(Method::GET));
    assert_eq!(Method::try_from("POST"), Ok(Method::POST));
    assert_eq!(Method::try_from("DELETE"), Err(RequestError::MethodNotSupported));
}

#[test]
fn invalid_utf8_is_read_lossily() {
    let mut raw = b"GET /a".to_vec();
    raw.push(0xff);
    raw.extend_from_slice(b" HTTP/1.1\r\n\r\n");
    let req = Request::new(&raw).ok().unwrap();
    assert_eq!(req.path, "/a\u{fffd}");
}

#[test]
fn tabs_and_extra_spaces_separate_words() {
    let req = parse("GET \t /account   HTTP/1.1\r\n\r\n").ok().unwrap();
    assert_eq!(req.path, "/account");
}

#[test]
fn query_without_pairs_gives_no_parameters() {
    let params = extract_query_param("/x?a&b&&c").unwrap();
    for k in ["a", "b", "c", ""] {
        assert!(!params.contains_key(k));
    }
}
