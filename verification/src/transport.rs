//! The packet I/O contract that every transport satisfies.
//!
//! A transport is split into a sender half and a receiver half, so that a
//! consumer can hold both mutably in one tick. Neither half ever blocks: `send`
//! is an enqueue and `recv` is a poll.
use vstd::prelude::*;

pub mod addr;
pub mod channel;
pub mod diagnostics;
pub mod error;
pub mod events;
pub mod io;
pub mod stats;
pub mod websocket;

use crate::transport::addr::PeerAddr;
use crate::transport::error::Error;

verus! {

/// Largest payload, in bytes, that a single packet may carry. Transports never
/// fragment or reassemble.
pub const MTU: usize = 1472;

/// The half of a transport that sends packets.
///
/// An implementation says with `sent` what its `send` does, and with
/// `send_ready` what it needs beforehand. One that says nothing needs nothing
/// and claims nothing: whatever it does is then allowed.
pub trait PacketSender: Sized {
    /// What this sender needs, beyond a payload within the MTU, before it can
    /// send `len` bytes.
    open spec fn send_ready(&self, len: nat) -> bool {
        true
    }

    /// What one call of [`send`](PacketSender::send) may do: it relates the sender
    /// before the call, the payload and its destination, the sender after the
    /// call, and the result.
    open spec fn sent(
        &self,
        payload: Seq<u8>,
        address: PeerAddr,
        after: &Self,
        result: Result<(), Error>,
    ) -> bool {
        true
    }

    /// Sends `payload` to `address` without blocking.
    fn send(&mut self, payload: &[u8], address: &PeerAddr) -> (result: Result<(), Error>)
        requires
            payload@.len() <= MTU,
            old(self).send_ready(payload@.len()),
        ensures
            old(self).sent(payload@, *address, final(self), result),
    ;
}

/// The half of a transport that receives packets.
///
/// An implementation says with `received` what its `recv` does, and with
/// `recv_ready` what it needs beforehand. One that says nothing needs nothing
/// and claims no more than that a packet fits the MTU.
pub trait PacketReceiver: Sized {
    /// What this receiver needs before it can be polled.
    open spec fn recv_ready(&self) -> bool {
        true
    }

    /// What one call of [`recv`](PacketReceiver::recv) may do: it relates the
    /// receiver before the call, the outcome, and the receiver after the call.
    ///
    /// A packet in the outcome is given by its bytes as they are handed out, its
    /// bytes as the caller leaves them when it lets go of the buffer, and the
    /// peer it came from.
    open spec fn received(
        &self,
        after: &Self,
        outcome: Result<Option<(Seq<u8>, Seq<u8>, PeerAddr)>, Error>,
    ) -> bool {
        true
    }

    /// Polls for one packet without blocking: `None` when nothing is pending.
    /// The packet is handed out in place, in a buffer that the receiver owns.
    fn recv(&mut self) -> (result: Result<Option<(&mut [u8], PeerAddr)>, Error>)
        requires
            old(self).recv_ready(),
        ensures
            match result {
                Ok(Some((buf, address))) => old(self).received(
                    final(self),
                    Ok(Some((buf@, final(buf)@, address))),
                ) && buf@.len() <= MTU,
                Ok(None) => old(self).received(final(self), Ok(None)),
                Err(e) => old(self).received(final(self), Err(e)),
            },
    ;
}

/// What a transport hands out for tearing itself down: called at most once.
pub trait CloseFn: Sized {
    /// What [`close`](CloseFn::close) may return.
    open spec fn closed(&self, result: Result<(), Error>) -> bool {
        true
    }

    /// Signals the background tasks of the transport to stop.
    fn close(self) -> (result: Result<(), Error>)
        ensures
            self.closed(result),
    ;
}

/// The teardown of a transport that has nothing to tear down.
pub struct NoClose;

impl CloseFn for NoClose {
    open spec fn closed(&self, result: Result<(), Error>) -> bool {
        result is Ok
    }

    fn close(self) -> (result: Result<(), Error>) {
        Ok(())
    }
}

/// A running transport, before it is split into its halves.
pub trait Transport: Sized {
    type Sender: PacketSender;

    type Receiver: PacketReceiver;

    type Close: CloseFn;

    /// Whether `address` is the address this transport is bound to.
    open spec fn is_bound_to(&self, address: PeerAddr) -> bool {
        true
    }

    /// Whether `halves` are the halves this transport is made of, and its
    /// teardown if it has one.
    open spec fn splits_into(
        self,
        halves: (Self::Sender, Self::Receiver, Option<Self::Close>),
    ) -> bool {
        true
    }

    /// The address this transport is bound to.
    fn local_addr(&self) -> (address: PeerAddr)
        ensures
            self.is_bound_to(address),
    ;

    /// Takes the transport apart into independent sender and receiver halves.
    fn split(self) -> (halves: (Self::Sender, Self::Receiver, Option<Self::Close>))
        ensures
            self.splits_into(halves),
    ;
}

/// Turns a configuration into a running transport. All blocking setup (binding
/// a listener, a handshake) happens in `connect`; a failure there is fatal to
/// that attempt and is returned as [`Error::Setup`].
pub trait TransportBuilder: Sized {
    type Output: Transport;

    fn connect(self) -> Result<Self::Output, Error>;
}

} // verus!
