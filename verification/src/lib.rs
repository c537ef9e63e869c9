//! A small HTTP routing and request-handling core: a route table with
//! path patterns, request extraction, response building and error mapping,
//! all stated over mathematical models and machine-checked.

pub mod error;
pub mod fields;
pub mod guarantees;
pub mod handlers;
pub mod json;
pub mod lifecycle;
pub mod method;
pub mod pattern;
pub mod reply;
pub mod request;
pub mod response;
pub mod router;
pub mod server;
pub mod text;
