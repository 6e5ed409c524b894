pub mod auth;
pub mod engine;
pub mod flow;
pub mod frame;
pub mod handshake;
pub mod http;
pub mod model;
pub mod router;
pub mod strmap;
pub mod text;
