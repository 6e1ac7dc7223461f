//! Connection-acceptance and handshake-upgrade core of a WebSocket server.
//!
//! The library owns the logic of the accept pipeline: scanning and parsing
//! the opening-handshake bytes, validating the upgrade request, and
//! classifying every accepted connection into a single outcome that either
//! carries a validated handshake or preserves every byte already read.
//! The raw socket, TLS and reactor plumbing sit outside the library and
//! feed it plain events.
pub mod handshake;
pub mod outcome;
pub mod request;
pub mod scan;
pub mod server;
