//! Execution-environment abstraction for an autonomous agent: the capability
//! contract every environment implements, the adapter for a native host, and
//! the traversal-safe resolution of bundled static assets.

pub mod gateway;
pub mod runtime;
pub mod text;
