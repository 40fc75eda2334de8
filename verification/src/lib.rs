//! A small server core for callable tools and readable resources.
//!
//! Tools are named operations with typed parameters; resources are read-only
//! data endpoints addressed by URIs, optionally parameterized through URI
//! templates. The crate provides the registries that hold their descriptors,
//! the dispatcher that turns a request into a response, and the demonstration
//! handlers of the template server itself.

pub mod dispatch;
pub mod laws;
pub mod protocol;
pub mod resources;
pub mod server;
pub mod setup;
pub mod tools;
pub mod text;
