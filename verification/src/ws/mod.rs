//! The websocket protocol engine: upgrade handshake and frame codec.

pub mod decoder;
pub mod encoder;
pub mod frame;
pub mod handshake;
pub mod outside;
pub mod codec_laws;
pub mod handshake_laws;
pub mod websocket;
