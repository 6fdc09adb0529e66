//! The channels between the background tasks and the halves of a transport.
//!
//! The channels are tokio's unbounded mpsc channels, and what travels on them are
//! tungstenite's WebSocket messages. Verus does not see inside either: the body
//! of each function below that calls into them is not read by Verus, and its
//! comment names the call. What a channel yields depends on what other tasks
//! did, so nothing is promised of it; the code that decides what to do with each
//! outcome is verified where it stands, for every outcome.
use vstd::prelude::*;
use tokio::sync::mpsc::error::TryRecvError;
use tokio::sync::mpsc::UnboundedReceiver;
use tokio::sync::mpsc::UnboundedSender;
use tokio_tungstenite::tungstenite::Message;

verus! {

/// tokio's `UnboundedSender`, carried through as an opaque value.
#[verifier::external_type_specification]
#[verifier::external_body]
#[verifier::reject_recursive_types(T)]
pub struct ExUnboundedSender<T>(UnboundedSender<T>);

/// tokio's `UnboundedReceiver`, carried through as an opaque value.
#[verifier::external_type_specification]
#[verifier::external_body]
#[verifier::reject_recursive_types(T)]
pub struct ExUnboundedReceiver<T>(UnboundedReceiver<T>);

/// tungstenite's `Message`, carried through as an opaque value.
#[verifier::external_type_specification]
#[verifier::external_body]
pub struct ExMessage(Message);

/// What a WebSocket message is to this layer.
#[derive(Debug, PartialEq, Eq)]
pub enum Frame {
    /// A binary message: one packet.
    Binary(Vec<u8>),
    /// The peer closes the connection.
    Close,
    /// Text, ping, pong or a raw frame: not a packet.
    Other,
}

/// What one poll of a channel can yield.
#[derive(Debug, PartialEq, Eq)]
pub enum Polled<T> {
    /// The oldest item that was pending.
    Item(T),
    /// Nothing is pending, and the channel still has a sender.
    Empty,
    /// Nothing is pending, and every sender is gone.
    Disconnected,
}

/// tokio's `unbounded_channel`: a new channel, as its two ends. Nothing is
/// claimed of them.
pub assume_specification<T>[ tokio::sync::mpsc::unbounded_channel::<T> ]() -> (ends: (
    UnboundedSender<T>,
    UnboundedReceiver<T>,
))
;

/// Calls tokio's `UnboundedSender::send`, which never waits, and tells whether
/// the item was queued. It is not queued when the receiving end is closed or
/// dropped, which other tasks decide: nothing is claimed of the answer.
#[verifier::external_body]
pub(crate) fn offer<T>(tx: &UnboundedSender<T>, item: T) -> (queued: bool) {
    tx.send(item).is_ok()
}

/// Calls tokio's `UnboundedReceiver::try_recv`, which never waits, and tells its
/// three outcomes apart. Which one comes depends on what the senders did: nothing
/// is claimed of it.
#[verifier::external_body]
pub(crate) fn poll<T>(rx: &mut UnboundedReceiver<T>) -> (polled: Polled<T>) {
    match rx.try_recv() {
        Ok(item) => Polled::Item(item),
        Err(TryRecvError::Empty) => Polled::Empty,
        Err(TryRecvError::Disconnected) => Polled::Disconnected,
    }
}

/// Calls `Clone::clone` of tokio's `UnboundedSender`: one more sender of the
/// same channel.
#[verifier::external_body]
pub(crate) fn another_sender<T>(tx: &UnboundedSender<T>) -> (other: UnboundedSender<T>) {
    tx.clone()
}

/// Makes tungstenite's `Message::Binary` of a copy of `payload`.
#[verifier::external_body]
pub(crate) fn binary_message(payload: &[u8]) -> (message: Message) {
    Message::Binary(payload.to_vec())
}

/// Tells the variants of tungstenite's `Message` apart: a binary message gives
/// its bytes, a close message gives `Close`, every other one `Other`.
#[verifier::external_body]
pub(crate) fn frame_of(message: Message) -> (frame: Frame) {
    match message {
        Message::Binary(bytes) => Frame::Binary(bytes),
        Message::Close(_) => Frame::Close,
        Message::Text(_) => Frame::Other,
        Message::Ping(_) => Frame::Other,
        Message::Pong(_) => Frame::Other,
        Message::Frame(_) => Frame::Other,
    }
}

} // verus!
