//! Core of a one-shot local secret-sharing server.
//!
//! The server hands out a single resource under a random URL path, serves it
//! to at most a configured number of requests, and stops itself once the
//! resource is consumed or once too many requests miss the path. This crate
//! holds the verified heart of that program: the delivery and abuse counters,
//! the one-shot shutdown orchestrator, and the request gate that composes
//! them. The surrounding process (HTTP transport, signal handling, file
//! serving) drives these types from the outside.

pub mod counters;
pub mod laws;
pub mod session;
pub mod shutdown;
pub mod single_file_server;
pub mod url_path;
