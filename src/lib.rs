//! Services with explicit readiness: a request/response interface in which each call must be
//! authorized by a preceding successful readiness check, a few services built on it, and a
//! decorator that records every call it forwards.

pub mod service;
pub mod echo;
pub mod alternating_ready;
pub mod log;
