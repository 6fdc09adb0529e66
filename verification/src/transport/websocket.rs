//! The WebSocket transport.
pub mod peers;
pub mod server;
