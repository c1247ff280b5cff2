//! A minimal line-oriented echo protocol.
//!
//! A client sends a text line over a byte stream and a server sends the
//! identical line back.  Messages are framed with a single newline byte.
//! This crate holds the protocol logic: the framing codec, the buffered
//! receive state of a connection, the server handler's per-event decision,
//! and the client's input and display transforms.  The sockets, threads and
//! standard streams that carry the bytes live outside it.

pub mod client;
pub mod connection;
pub mod errors;
pub mod framing;
pub mod handler;
pub mod session;
