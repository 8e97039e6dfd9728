//! A pluggable runtime layer: backends as types, execution-style markers that
//! gate what each backend can be asked to do, a verified priority resolver for
//! the default backend, and the connection-options contracts.

pub mod backend;
pub mod blocking;
pub mod options;
pub mod runtime;

pub use runtime::{Async, Runtime};
