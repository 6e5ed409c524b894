//! The session loop's decisions: screening of the first read, routing of an
//! admitted request, and the fixed HTTP responses.
use crate::auth::{token_of, token_for};
use crate::http::{error_message, parse_bytes, Method, Request, RequestError};
use crate::model::OrderError;
use crate::text::{chars_of, same_chars};
use vstd::prelude::*;
use vstd::string::*;

verus! {

#[derive(PartialEq, Eq, Structural, Debug, Clone, Copy)]
pub enum Route {
    /// `GET /order/ws`: handshake, then the WebSocket order loop.
    OrderSocket,
    /// `POST /order`: one order in the JSON body.
    SubmitOrder,
    /// `GET /order`: the user's orders.
    ListOrders,
    /// `GET /portfolio`: the user's portfolio rows.
    ListPortfolios,
    /// `GET /account`: the user's account snapshot.
    ShowAccount,
    NotFound,
}

pub open spec fn route_of(method: Method, path: Seq<char>) -> Route {
    if method == Method::GET && path == "/order/ws"@ {
        Route::OrderSocket
    } else if method == Method::POST && path == "/order"@ {
        Route::SubmitOrder
    } else if method == Method::GET && path == "/order"@ {
        Route::ListOrders
    } else if method == Method::GET && path == "/portfolio"@ {
        Route::ListPortfolios
    } else if method == Method::GET && path == "/account"@ {
        Route::ShowAccount
    } else {
        Route::NotFound
    }
}

pub fn route(method: Method, path: &str) -> (r: Route)
    ensures
        r == route_of(method, path@),
{
    let p = chars_of(path);
    if method == Method::GET && same_chars(&p, "/order/ws") {
        Route::OrderSocket
    } else if method == Method::POST && same_chars(&p, "/order") {
        Route::SubmitOrder
    } else if method == Method::GET && same_chars(&p, "/order") {
        Route::ListOrders
    } else if method == Method::GET && same_chars(&p, "/portfolio") {
        Route::ListPortfolios
    } else if method == Method::GET && same_chars(&p, "/account") {
        Route::ShowAccount
    } else {
        Route::NotFound
    }
}

pub open spec fn bad_request_text(msg: Seq<char>) -> Seq<char> {
    "HTTP/1.1 400 Bad Request\r\n\r\n"@ + msg
}

pub open spec fn internal_error_text(msg: Seq<char>) -> Seq<char> {
    "HTTP/1.1 500 Internal Error\r\n\r\n"@ + msg
}

pub open spec fn ok_text(body: Seq<char>) -> Seq<char> {
    "HTTP/1.1 200 OK\r\nContent-Type: application/json\r\n\r\n"@ + body
}

pub open spec fn unauthorized_text() -> Seq<char> {
    "HTTP/1.1 401 Unauthorized\r\n\r\n401 unauthorized"@
}

pub open spec fn not_found_text() -> Seq<char> {
    "HTTP/1.1 404 NOT FOUND\r\n\r\n404 Not Found"@
}

pub fn bad_request(msg: &str) -> (r: String)
    ensures
        r@ == bad_request_text(msg@),
{
    String::from_str("HTTP/1.1 400 Bad Request\r\n\r\n").concat(msg)
}

pub fn internal_error(msg: &str) -> (r: String)
    ensures
        r@ == internal_error_text(msg@),
{
    String::from_str("HTTP/1.1 500 Internal Error\r\n\r\n").concat(msg)
}

pub fn ok_json(body: &str) -> (r: String)
    ensures
        r@ == ok_text(body@),
{
    String::from_str("HTTP/1.1 200 OK\r\nContent-Type: application/json\r\n\r\n").concat(body)
}

pub fn unauthorized() -> (r: String)
    ensures
        r@ == unauthorized_text(),
{
    String::from_str("HTTP/1.1 401 Unauthorized\r\n\r\n401 unauthorized")
}

pub fn not_found() -> (r: String)
    ensures
        r@ == not_found_text(),
{
    String::from_str("HTTP/1.1 404 NOT FOUND\r\n\r\n404 Not Found")
}

/// An order error over plain HTTP: client faults are 400, cache and store
/// faults 500; a refused buy for want of funds names its cause.
pub open spec fn order_error_text(e: OrderError) -> Seq<char> {
    match e {
        OrderError::BadRequest | OrderError::Serde => bad_request_text(Seq::empty()),
        OrderError::NotEnoughFunds => bad_request_text("Not enough funds"@),
        OrderError::Redis | OrderError::Database => internal_error_text(Seq::empty()),
    }
}

pub fn order_error_response(e: OrderError) -> (r: String)
    ensures
        r@ == order_error_text(e),
{
    proof {
        reveal_strlit("");
    }
    match e {
        OrderError::BadRequest | OrderError::Serde => bad_request(""),
        OrderError::NotEnoughFunds => bad_request("Not enough funds"),
        OrderError::Redis | OrderError::Database => internal_error(""),
    }
}

/// Why a connection is turned away before routing, with the response that
/// says so.
pub enum Rejection {
    /// The request could not be parsed: 400 with the parser's message.
    Malformed(RequestError),
    /// The request carries no token: 401.
    NoToken,
}

impl Rejection {
    pub fn response(&self) -> (r: String)
        ensures
            r@ == match self {
                Rejection::Malformed(e) => bad_request_text(error_message(*e)),
                Rejection::NoToken => unauthorized_text(),
            },
    {
        match self {
            Rejection::Malformed(e) => bad_request(e.message().as_str()),
            Rejection::NoToken => unauthorized(),
        }
    }
}

/// The authentication middleware's own logic, between the read and the
/// token verification.
pub struct Middleware {}

impl Middleware {
    /// Parses what the first read brought and pulls out the token that the
    /// request carries, which the caller then verifies.
    pub fn new(raw: &[u8]) -> (r: Result<(Request, String), Rejection>)
        ensures
            match parse_bytes(raw@) {
                Err(e) => r matches Err(Rejection::Malformed(f)) && f == e,
                Ok(m) => match token_of(m) {
                    Some(t) => r matches Ok((req, token)) && req@ == m && token@ == t,
                    None => r matches Err(Rejection::NoToken),
                },
            },
    {
        let parsed = Request::new(raw);
        match parsed {
            Err(e) => Err(Rejection::Malformed(e)),
            Ok(req) => match token_for(&req) {
                Some(token) => Ok((req, token)),
                None => Err(Rejection::NoToken),
            },
        }
    }
}

} // verus!
