//! A client-side session driver for a stateful JSON-RPC evaluator service.
//!
//! The library holds the session state (the server's opaque token and the
//! last raw answer), builds each request, and decodes every reply envelope.
//! Sending requests over the network is left to the caller: each operation
//! is split into a function that builds the request and one that takes the
//! reply (or the transport failure) and decides the next session state.

pub mod json;
pub mod protocol;
pub mod session;
pub mod facade;
pub mod laws;
