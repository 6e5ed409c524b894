use stockbit_order::auth::{extract_token, parse_i32, token_for, user_id_from_subject, AuthError};
use stockbit_order::http::Request;
use stockbit_order::strmap::StrMap;

fn headers(v: &str) -> StrMap {
    let mut m = StrMap::new();
    m.insert("authorization".to_string(), v.to_string());
    m
}

#[test]
fn bearer_token_is_extracted() {
    assert_eq!(extract_token(&headers("Bearer abc.def")), Some("abc.def".to_string()));
    assert_eq!(extract_token(&headers("  Bearer   tok  extra")), Some("tok".to_string()));
}

#[test]
fn malformed_authorization_gives_none() {
    assert_eq!(extract_token(&headers("Basic abc")), None);
    assert_eq!(extract_token(&headers("bearer abc")), None);
    assert_eq!(extract_token(&headers("Bearer")), None);
    assert_eq!(extract_token(&StrMap::new()), None);
}

#[test]
fn websocket_path_takes_query_token() {
    let req = Request::new(b"GET /order/ws?token=qt HTTP/1.1\r\nAuthorization: Bearer ht\r\n\r\n").ok().unwrap();
    assert_eq!(token_for(&req), Some("qt".to_string()));
    let no_token = Request::new(b"GET /order/ws HTTP/1.1\r\nAuthorization: Bearer ht\r\n\r\n").ok().unwrap();
    assert_eq!(token_for(&no_token), None);
}

#[test]
fn other_paths_take_bearer_header() {
    let req = Request::new(b"GET /account?token=qt HTTP/1.1\r\nAuthorization: Bearer ht\r\n\r\n").ok().unwrap();
    assert_eq!(token_for(&req), Some("ht".to_string()));
}

#[test]
fn integers_read_like_from_str() {
    assert_eq!(parse_i32("42"), Some(42));
    assert_eq!(parse_i32("-7"), Some(-7));
    assert_eq!(parse_i32("+5"), Some(5));
    assert_eq!(parse_i32("0"), Some(0));
    assert_eq!(parse_i32("2147483647"), Some(i32::MAX));
    assert_eq!(parse_i32("-2147483648"), Some(i32::MIN));
    assert_eq!(parse_i32("2147483648"), None);
    assert_eq!(parse_i32("99999999999999999999"), None);
    assert_eq!(parse_i32(""), None);
    assert_eq!(parse_i32("-"), None);
    assert_eq!(parse_i32("12a"), None);
    assert_eq!(parse_i32(" 1"), None);
    for s in ["1", "-1", "123456", "+0", "x", "--1"] {
        assert_eq!(parse_i32(s), s.parse::<i32>().ok());
    }
}

#[test]
fn non_integer_subject_is_unauthorized() {
    assert_eq!(user_id_from_subject("42"), Ok(42));
    assert_eq!(user_id_from_subject("alice"), Err(AuthError::Unauthorized));
}
