//! A sans-I/O core for low-latency websocket clients.
//!
//! The crate holds the protocol logic of a single-threaded, event-driven
//! network client: a bounded read buffer, the websocket upgrade handshake,
//! the frame codec and the per-connection lifecycle rules of the I/O
//! service. Nothing here touches a socket. Bytes that arrived are handed in
//! as slices, bytes to be written are appended to a caller supplied `Vec<u8>`,
//! and every function states in its contract what it returns and changes.

pub mod buffer;
pub mod error;
pub mod service;
pub mod stream;
pub mod ws;
