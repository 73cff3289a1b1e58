//! The catalog of wrapped commands: one module per underlying tool
//! family, each with its typed requests, its invocation builders and
//! its registered tool types.

pub mod add_remove;
pub mod cargo;
pub mod cargo_deny;
pub mod cargo_hack;
pub mod check;
pub mod clippy;
pub mod common;
pub mod doc;
pub mod info;
pub mod metadata;
pub mod package;
pub mod rustc;
pub mod search;
pub mod update;
