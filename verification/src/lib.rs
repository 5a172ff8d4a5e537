//! Core logic of a small HTTP backend: a monotonically incrementing request
//! counter, the greeting response built for each request, port resolution
//! from an optional environment string, and path-based route dispatch.

pub mod counter;
pub mod digits;
pub mod message;
pub mod port;
pub mod rfc3339;
pub mod route;
