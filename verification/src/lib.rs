//! Route table and response construction for a small to-do HTTP service.
//!
//! The service answers `GET` requests on a fixed set of paths, each with a
//! fixed sentence sent as a JSON string, and every other request with
//! `404 Not Found`. This crate holds everything about it that is not I/O:
//! the handlers, the route table, the dispatch of a request to its handler
//! and the construction of the response, body included.

pub mod handlers;
pub mod http;
pub mod json;
pub mod router;
pub mod service;

pub use handlers::{hello, todoHeader, todoMake, todoRead, todoSchool, todoWatch, Handler};
pub use http::{respond, Json, Method, Outcome, Response, Status};
pub use router::Router;
pub use service::rocket;
