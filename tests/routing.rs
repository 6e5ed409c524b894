use stockbit_order::http::{Method, RequestError};
use stockbit_order::model::OrderError;
use stockbit_order::router::{
    bad_request, not_found, ok_json, order_error_response, route, Middleware, unauthorized, Rejection, Route,
};

#[test]
fn routes_by_method_and_path() {
    assert_eq!(route(Method::GET, "/order/ws"), Route::OrderSocket);
    assert_eq!(route(Method::POST, "/order"), Route::SubmitOrder);
    assert_eq!(route(Method::GET, "/order"), Route::ListOrders);
    assert_eq!(route(Method::GET, "/portfolio"), Route::ListPortfolios);
    assert_eq!(route(Method::GET, "/account"), Route::ShowAccount);
    assert_eq!(route(Method::POST, "/account"), Route::NotFound);
    assert_eq!(route(Method::GET, "/orders"), Route::NotFound);
}

#[test]
fn fixed_responses() {
    assert_eq!(unauthorized(), "HTTP/1.1 401 Unauthorized\r\n\r\n401 unauthorized");
    assert_eq!(not_found(), "HTTP/1.1 404 NOT FOUND\r\n\r\n404 Not Found");
    assert_eq!(bad_request("Request too large"), "HTTP/1.1 400 Bad Request\r\n\r\nRequest too large");
    assert_eq!(ok_json("{}"), "HTTP/1.1 200 OK\r\nContent-Type: application/json\r\n\r\n{}");
}

#[test]
fn order_errors_over_http() {
    assert_eq!(order_error_response(OrderError::BadRequest), "HTTP/1.1 400 Bad Request\r\n\r\n");
    assert_eq!(order_error_response(OrderError::Serde), "HTTP/1.1 400 Bad Request\r\n\r\n");
    assert_eq!(order_error_response(OrderError::NotEnoughFunds), "HTTP/1.1 400 Bad Request\r\n\r\nNot enough funds");
    assert_eq!(order_error_response(OrderError::Redis), "HTTP/1.1 500 Internal Error\r\n\r\n");
    assert_eq!(order_error_response(OrderError::Database), "HTTP/1.1 500 Internal Error\r\n\r\n");
}

#[test]
fn oversize_request_is_rejected_with_400() {
    let raw = vec![b'x'; 2048];
    match Middleware::new(&raw) {
        Err(r) => {
            assert!(matches!(r, Rejection::Malformed(RequestError::TooLarge)));
            assert_eq!(r.response(), "HTTP/1.1 400 Bad Request\r\n\r\nRequest too large");
        }
        Ok(_) => panic!("expected a rejection"),
    }
}

#[test]
fn missing_token_is_rejected_with_401() {
    match Middleware::new(b"GET /account HTTP/1.1\r\nHost: x\r\n\r\n") {
        Err(r) => {
            assert!(matches!(r, Rejection::NoToken));
            assert_eq!(r.response(), "HTTP/1.1 401 Unauthorized\r\n\r\n401 unauthorized");
        }
        Ok(_) => panic!("expected a rejection"),
    }
}

#[test]
fn token_is_handed_on() {
    let (req, token) = Middleware::new(b"GET /order/ws?token=t0k HTTP/1.1\r\n\r\n").ok().unwrap();
    assert_eq!(token, "t0k");
    assert_eq!(req.path, "/order/ws");
}
