//! A verified core for a catalog of `cargo` subcommand wrappers exposed
//! through a uniform, schema-described tool-call interface.
//!
//! The crate models raw JSON parameters as plain values, normalizes them
//! leniently into typed requests, turns each request into a concrete
//! process invocation (argument vector, environment overrides, working
//! directory), and wraps an observed process outcome into a structured
//! response with advisory recommendations. Process spawning itself is
//! left to the (unverified) embedding.

pub mod decode;
pub mod errors;
pub mod invocation;
pub mod json;
pub mod outcome;
pub mod registry;
pub mod response;
pub mod schema;
pub mod strutil;
pub mod tool;
pub mod tools;

