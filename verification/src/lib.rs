//! Transport and connection-lifecycle core of a client/server networking layer.
//!
//! Every concrete transport is presented behind one packet-oriented interface
//! ([`transport::PacketSender`], [`transport::PacketReceiver`]). The
//! [`transport::io::Io`] façade is the single object a simulation loop holds: it
//! tracks the connection state, accounts for traffic and tears the transport down.
//! Background tasks never touch that state; they talk to the façade through
//! channels, and every call the simulation makes is a non-blocking poll or enqueue.

pub mod transport;
