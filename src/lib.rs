//! Building HTTP responses: one value that carries the outcome of a request,
//! its payload and the tracing and timing headers stamped on it.

pub mod text;
pub mod trace;
pub mod timing;
pub mod code;
pub mod error;
pub mod json;
pub mod encode;
pub mod validation;
pub mod response;
pub mod record;
