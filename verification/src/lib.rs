//! A minimal HTTP/1.1 request server core: request-line parsing, response
//! framing, an exact-match handler registry and the per-connection steps.

pub mod methods;
pub mod text;
pub mod routes;
pub mod request;
pub mod response;
pub mod handler;
pub mod server;
pub mod threadpool;
pub mod connection;
