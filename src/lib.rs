//! Named, typed request/response endpoints behind one HTTP entry point: the
//! endpoint registry, the request dispatch pipeline, the static asset table,
//! and the client side request driver with its observable fetch state.

pub mod assets;
pub mod client;
pub mod codec;
pub mod demo;
pub mod dispatch;
pub mod fetch;
pub mod http;
pub mod registry;
