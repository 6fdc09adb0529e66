//! The event bridge: what background tasks tell the owner of an io, and what
//! the owner tells them.
//!
//! Background tasks never touch state that the simulation owns. They emit
//! coarse lifecycle events, which the owner polls once per tick and applies
//! itself; requests to shut down travel the other way.
use vstd::prelude::*;

use crate::transport::addr::PeerAddr;
use crate::transport::channel::Polled;
use crate::transport::error::Error;

verus! {

/// Sent from the io task of a client to the thread that owns the io.
#[derive(Debug, PartialEq, Eq)]
pub enum ClientIoEvent {
    /// The connection is established.
    Connected,
    /// The connection is gone, for this reason.
    Disconnected(Error),
}

/// Sent from the io task of a server to the thread that owns the io.
#[derive(Debug, PartialEq, Eq)]
pub enum ServerIoEvent {
    /// The server is listening.
    ServerConnected,
    /// The server is gone, for this reason.
    ServerDisconnected(Error),
    /// The io task of this one client ended.
    ClientDisconnected(PeerAddr),
}

/// Sent from the thread that owns the io to the io task of a server.
#[derive(Clone, Copy, Debug, PartialEq, Eq, Structural)]
pub enum ServerNetworkEvent {
    /// The server is stopped: the io task should end.
    ServerDisconnected,
    /// This client asked to disconnect: its io task should end.
    ClientDisconnected(PeerAddr),
}

/// async-channel's `Receiver`, carried through as an opaque value.
#[verifier::external_type_specification]
#[verifier::external_body]
#[verifier::reject_recursive_types(T)]
pub struct ExEventReceiver<T>(async_channel::Receiver<T>);

/// async-channel's `Sender`, carried through as an opaque value.
#[verifier::external_type_specification]
#[verifier::external_body]
#[verifier::reject_recursive_types(T)]
pub struct ExEventSender<T>(async_channel::Sender<T>);

/// crossbeam-channel's `Sender`, carried through as an opaque value.
#[verifier::external_type_specification]
#[verifier::external_body]
#[verifier::reject_recursive_types(T)]
pub struct ExCrossbeamSender<T>(crossbeam_channel::Sender<T>);

/// What became of an event that was offered to a channel.
#[derive(Clone, Copy, Debug, PartialEq, Eq, Structural)]
pub enum Offered {
    /// It was queued.
    Queued,
    /// The channel is bounded and full: the event was dropped.
    Full,
    /// The other end of the channel is gone: the event was dropped.
    Closed,
}

/// Calls async-channel's `Receiver::try_recv`, which never waits, and tells its
/// three outcomes apart. Which one comes depends on what the senders did: nothing
/// is claimed of it.
#[verifier::external_body]
fn poll_events<T>(rx: &async_channel::Receiver<T>) -> (polled: Polled<T>) {
    match rx.try_recv() {
        Ok(event) => Polled::Item(event),
        Err(async_channel::TryRecvError::Empty) => Polled::Empty,
        Err(async_channel::TryRecvError::Closed) => Polled::Disconnected,
    }
}

/// Calls async-channel's `Sender::try_send`, which never waits, and tells its
/// three outcomes apart. Which one comes depends on the channel and on what the
/// receivers did: nothing is claimed of it.
#[verifier::external_body]
fn offer_control<T>(tx: &async_channel::Sender<T>, event: T) -> (offered: Offered) {
    match tx.try_send(event) {
        Ok(()) => Offered::Queued,
        Err(async_channel::TrySendError::Full(_)) => Offered::Full,
        Err(async_channel::TrySendError::Closed(_)) => Offered::Closed,
    }
}

/// Calls crossbeam-channel's `Sender::try_send`, which never waits, and tells
/// its three outcomes apart. Which one comes depends on the channel and on what
/// the receivers did: nothing is claimed of it.
#[verifier::external_body]
fn offer_event<T>(tx: &crossbeam_channel::Sender<T>, event: T) -> (offered: Offered) {
    match tx.try_send(event) {
        Ok(()) => Offered::Queued,
        Err(crossbeam_channel::TrySendError::Full(_)) => Offered::Full,
        Err(crossbeam_channel::TrySendError::Disconnected(_)) => Offered::Closed,
    }
}

/// Where the owner of a client io polls the events of its io task.
pub struct ClientIoEventReceiver(pub async_channel::Receiver<ClientIoEvent>);

impl ClientIoEventReceiver {
    /// Polls for one event without waiting.
    pub fn try_recv(&self) -> (polled: Polled<ClientIoEvent>) {
        poll_events(&self.0)
    }
}

/// Where the io task of a client reports its events.
pub struct ClientNetworkEventSender(pub crossbeam_channel::Sender<ClientIoEvent>);

impl ClientNetworkEventSender {
    /// Offers one event without waiting.
    pub fn try_send(&self, event: ClientIoEvent) -> (offered: Offered) {
        offer_event(&self.0, event)
    }
}

/// Where the owner of a server io polls the events of its io task.
pub struct ServerIoEventReceiver(pub async_channel::Receiver<ServerIoEvent>);

impl ServerIoEventReceiver {
    /// Polls for one event without waiting.
    pub fn try_recv(&self) -> (polled: Polled<ServerIoEvent>) {
        poll_events(&self.0)
    }
}

/// Where the owner of a server io sends its requests to the io task.
pub struct ServerNetworkEventSender(pub async_channel::Sender<ServerNetworkEvent>);

impl ServerNetworkEventSender {
    /// Offers one request without waiting.
    pub fn try_send(&self, event: ServerNetworkEvent) -> (offered: Offered) {
        offer_control(&self.0, event)
    }
}

} // verus!
