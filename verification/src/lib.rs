//! JSON-RPC 2.0 request routing for a WebSocket server.
//!
//! Methods are registered by name in a [`route::Route`], together with
//! the shared state that their handlers ask for. A frame's text is routed
//! by [`route::route_jsonrpc`]: a single request to its handler, every
//! element of a batch on its own, and whatever cannot be routed to the
//! error response that says why. Routing starts the handlers' tasks and
//! never waits for them; the program that owns the sockets runs the tasks
//! and the three stages of each connection, and takes its decisions from
//! [`pipeline`].
//!
//! The library's own logic is verified against its contracts, and
//! [`laws`] proves what holds of every response. The calls into
//! `serde_json`, `jsonrpc_lite`, `fxhash` and the parts of `std` that the
//! verifier does not know stand in functions marked `external_body` and
//! in `assume_specification` items: their contracts are believed.

pub mod data;
pub mod factory;
pub mod json;
pub mod laws;
pub mod message;
pub mod pipeline;
pub mod route;
pub mod server;

pub use data::Data;
