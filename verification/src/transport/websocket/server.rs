//! The WebSocket server transport: one listener, many peers.
//!
//! A listener task accepts peers. Each peer is served by a pair of tasks that
//! share one pair of channels: the outbound task drains the peer's own outbound
//! channel into its socket, the inbound task reads frames from the socket and
//! pushes them, with the peer's address, onto the one inbound channel that all
//! peers share. The halves of the transport sit at the other ends: the sender
//! looks a peer's channel up and enqueues on it, the receiver polls the shared
//! channel and copies at most one frame per call into its own buffer.
//!
//! This module holds every decision of that design. Accepting, the handshake,
//! reading and writing sockets and running the tasks is the runtime's part: it
//! drives a [`WebSocketServerTask`] and the [`PeerSession`]s it hands out.
use vstd::prelude::*;
use tokio::sync::mpsc::unbounded_channel;
use tokio::sync::mpsc::UnboundedReceiver;
use tokio::sync::mpsc::UnboundedSender;
use tokio_tungstenite::tungstenite::Message;

use crate::transport::addr::PeerAddr;
use crate::transport::channel::another_sender;
use crate::transport::channel::frame_of;
use crate::transport::channel::offer;
use crate::transport::channel::poll;
use crate::transport::channel::Frame;
use crate::transport::channel::Polled;
use crate::transport::error::Error;
use crate::transport::events::ServerNetworkEvent;
use crate::transport::websocket::peers::ClientBoundTxMap;
use crate::transport::websocket::peers::Delivery;
use crate::transport::NoClose;
use crate::transport::PacketReceiver;
use crate::transport::PacketSender;
use crate::transport::Transport;
use crate::transport::MTU;

verus! {

/// The sender half: routes each payload to the outbound channel of its peer.
pub struct WebSocketServerSocketSender {
    server_addr: PeerAddr,
    addr_to_clientbound_tx: ClientBoundTxMap,
}

impl WebSocketServerSocketSender {
    /// The address the server listens on.
    pub closed spec fn bound_to(&self) -> PeerAddr {
        self.server_addr
    }

    /// The peer table this sender routes with.
    pub closed spec fn peers(&self) -> ClientBoundTxMap {
        self.addr_to_clientbound_tx
    }

    /// What a send returns once the peer table has answered, or could not.
    pub open spec fn spec_send_result(routed: Result<Delivery, Error>) -> Result<(), Error> {
        match routed {
            Ok(delivery) => delivery.spec_result(),
            Err(e) => Err(e),
        }
    }

    /// What a send returns once the peer table has answered, or could not: a
    /// peer that is gone is a success, a closed channel is an error.
    pub fn send_result(routed: Result<Delivery, Error>) -> (result: Result<(), Error>)
        ensures
            result == Self::spec_send_result(routed),
    {
        match routed {
            Ok(delivery) => delivery.result(),
            Err(e) => Err(e),
        }
    }
}

impl PacketSender for WebSocketServerSocketSender {
    /// A send leaves the sender as it was. It fails only when the outbound
    /// channel of the peer is closed, or when the lock of the peer table is
    /// poisoned.
    open spec fn sent(
        &self,
        payload: Seq<u8>,
        address: PeerAddr,
        after: &Self,
        result: Result<(), Error>,
    ) -> bool {
        &&& *after == *self
        &&& result matches Err(e) ==> e == Error::SendChannelClosed || e == Error::Poisoned
    }

    fn send(&mut self, payload: &[u8], address: &PeerAddr) -> (result: Result<(), Error>) {
        Self::send_result(self.addr_to_clientbound_tx.route(payload, address))
    }
}

/// The receiver half: polls the inbound channel that all peers share, and hands
/// each packet out in its one reusable buffer.
pub struct WebSocketServerSocketReceiver {
    buffer: [u8; MTU],
    server_addr: PeerAddr,
    serverbound_rx: UnboundedReceiver<(PeerAddr, Message)>,
}

impl WebSocketServerSocketReceiver {
    /// What the buffer holds.
    pub closed spec fn buffer(&self) -> Seq<u8> {
        self.buffer@
    }

    /// The address the server listens on.
    pub closed spec fn bound_to(&self) -> PeerAddr {
        self.server_addr
    }

    /// The receiving end of the inbound channel.
    pub closed spec fn inbound(&self) -> UnboundedReceiver<(PeerAddr, Message)> {
        self.serverbound_rx
    }

    /// What a poll does with each thing the inbound channel can yield, to a
    /// buffer that holds `before`.
    ///
    /// A binary frame that fits a packet is copied to the front of the buffer and
    /// handed out from there, with the peer it came from; the rest of the buffer
    /// is untouched. A longer one is refused. A close frame, any other frame and
    /// an empty channel all mean that no packet is pending. A channel that every
    /// background task has let go of is an error.
    pub open spec fn delivers(
        before: Seq<u8>,
        inbound: Polled<(PeerAddr, Frame)>,
        after: Seq<u8>,
        outcome: Result<Option<(Seq<u8>, Seq<u8>, PeerAddr)>, Error>,
    ) -> bool {
        match inbound {
            Polled::Item((from, Frame::Binary(data))) => if data@.len() <= MTU {
                &&& outcome matches Ok(Some((bytes, left, address)))
                &&& bytes == data@
                &&& address == from
                &&& left.len() == bytes.len()
                &&& after == left + before.subrange(bytes.len() as int, MTU as int)
            } else {
                &&& outcome matches Err(Error::FrameTooLarge(len))
                &&& len == data@.len()
                &&& after == before
            },
            Polled::Item((_, Frame::Close)) => outcome is Ok && outcome->Ok_0 is None && after
                == before,
            Polled::Item((_, Frame::Other)) => outcome is Ok && outcome->Ok_0 is None && after
                == before,
            Polled::Empty => outcome is Ok && outcome->Ok_0 is None && after == before,
            Polled::Disconnected => outcome matches Err(Error::RecvChannelClosed) && after
                == before,
        }
    }

    /// What is handed to [`deliver`](Self::deliver) for what the inbound channel
    /// yielded: the same outcome, and for an item its frame under the address
    /// it was queued under.
    pub fn framed(polled: Polled<(PeerAddr, Message)>) -> (inbound: Polled<(PeerAddr, Frame)>)
        ensures
            match polled {
                Polled::Item((from, _)) => inbound matches Polled::Item((address, _)) && address
                    == from,
                Polled::Empty => inbound is Empty,
                Polled::Disconnected => inbound is Disconnected,
            },
    {
        match polled {
            Polled::Item((from, message)) => Polled::Item((from, frame_of(message))),
            Polled::Empty => Polled::Empty,
            Polled::Disconnected => Polled::Disconnected,
        }
    }

    /// Does with `inbound` what a poll does with what the inbound channel
    /// yields; the channel itself is not touched.
    pub fn deliver(&mut self, inbound: Polled<(PeerAddr, Frame)>) -> (result: Result<
        Option<(&mut [u8], PeerAddr)>,
        Error,
    >)
        ensures
            final(self).inbound() == old(self).inbound(),
            final(self).bound_to() == old(self).bound_to(),
            match result {
                Ok(Some((buf, address))) => Self::delivers(
                    old(self).buffer(),
                    inbound,
                    final(self).buffer(),
                    Ok(Some((buf@, final(buf)@, address))),
                ),
                Ok(None) => Self::delivers(
                    old(self).buffer(),
                    inbound,
                    final(self).buffer(),
                    Ok(None),
                ),
                Err(e) => Self::delivers(old(self).buffer(), inbound, final(self).buffer(), Err(e)),
            },
    {
        match inbound {
            Polled::Item((from, Frame::Binary(data))) => {
                let len: usize = data.len();
                if len > MTU {
                    return Err(Error::FrameTooLarge(len));
                }
                let mut i: usize = 0;
                while i < len
                    invariant
                        i <= len,
                        len == data@.len(),
                        len <= MTU,
                        self.server_addr == old(self).server_addr,
                        self.serverbound_rx == old(self).serverbound_rx,
                        self.buffer@.subrange(0, i as int) == data@.subrange(0, i as int),
                        self.buffer@.subrange(len as int, MTU as int) == old(self).buffer@.subrange(
                            len as int,
                            MTU as int,
                        ),
                    decreases len - i,
                {
                    self.buffer[i] = data[i];
                    i = i + 1;
                    assert(self.buffer@.subrange(0, i as int) =~= data@.subrange(0, i as int));
                    assert(self.buffer@.subrange(len as int, MTU as int) =~= old(
                        self,
                    ).buffer@.subrange(len as int, MTU as int));
                }
                assert(data@.subrange(0, len as int) =~= data@);
                let whole: &mut [u8] = &mut self.buffer;
                assert(final(whole)@.len() == MTU);
                let (packet, _rest) = whole.split_at_mut(len);
                assert(final(packet)@.len() + _rest@.len() == MTU);
                Ok(Some((packet, from)))
            },
            Polled::Item((_, Frame::Close)) => Ok(None),
            Polled::Item((_, Frame::Other)) => Ok(None),
            Polled::Empty => Ok(None),
            Polled::Disconnected => Err(Error::RecvChannelClosed),
        }
    }
}

impl PacketReceiver for WebSocketServerSocketReceiver {
    /// A poll does, for something that the inbound channel yielded, what
    /// [`delivers`](WebSocketServerSocketReceiver::delivers) says.
    open spec fn received(
        &self,
        after: &Self,
        outcome: Result<Option<(Seq<u8>, Seq<u8>, PeerAddr)>, Error>,
    ) -> bool {
        &&& after.bound_to() == self.bound_to()
        &&& exists|inbound: Polled<(PeerAddr, Frame)>|
            Self::delivers(self.buffer(), inbound, after.buffer(), outcome)
    }

    fn recv(&mut self) -> (result: Result<Option<(&mut [u8], PeerAddr)>, Error>) {
        let inbound = Self::framed(poll(&mut self.serverbound_rx));
        assert(self.buffer() == old(self).buffer());
        assert(self.bound_to() == old(self).bound_to());
        self.deliver(inbound)
    }
}

/// The WebSocket server transport, before it is split into its halves.
pub struct WebSocketServerSocket {
    local_addr: PeerAddr,
    sender: WebSocketServerSocketSender,
    receiver: WebSocketServerSocketReceiver,
}

impl WebSocketServerSocket {
    /// The address the server listens on.
    pub closed spec fn bound_to(&self) -> PeerAddr {
        self.local_addr
    }

    /// The sender half.
    pub closed spec fn sender(&self) -> WebSocketServerSocketSender {
        self.sender
    }

    /// The receiver half.
    pub closed spec fn receiver(&self) -> WebSocketServerSocketReceiver {
        self.receiver
    }
}

impl Transport for WebSocketServerSocket {
    type Sender = WebSocketServerSocketSender;

    type Receiver = WebSocketServerSocketReceiver;

    type Close = NoClose;

    open spec fn is_bound_to(&self, address: PeerAddr) -> bool {
        address == self.bound_to()
    }

    /// The two halves, and no teardown: the background tasks end when the
    /// channels close.
    open spec fn splits_into(
        self,
        halves: (Self::Sender, Self::Receiver, Option<Self::Close>),
    ) -> bool {
        halves == (self.sender(), self.receiver(), None::<NoClose>)
    }

    fn local_addr(&self) -> (address: PeerAddr) {
        self.local_addr
    }

    fn split(self) -> (halves: (Self::Sender, Self::Receiver, Option<Self::Close>)) {
        (self.sender, self.receiver, None)
    }
}

/// The configuration of a WebSocket server transport.
pub struct WebSocketServerSocketBuilder {
    /// The address to listen on.
    pub server_addr: PeerAddr,
}

impl WebSocketServerSocketBuilder {
    /// Whether `parts` are a transport for this configuration and the
    /// listener's side of it: both at the configured address, the buffer zeroed,
    /// and the listener filing its peers in the table that the sender half
    /// routes with.
    pub open spec fn builds(self, parts: (WebSocketServerSocket, WebSocketServerTask)) -> bool {
        &&& parts.0.bound_to() == self.server_addr
        &&& parts.0.sender().bound_to() == self.server_addr
        &&& parts.0.receiver().bound_to() == self.server_addr
        &&& parts.0.receiver().buffer() == Seq::new(MTU as nat, |i: int| 0u8)
        &&& parts.1.bound_to() == self.server_addr
        &&& parts.1.peers() == parts.0.sender().peers()
    }

    /// Connects the transport, once the runtime has tried to bind the listener:
    /// `bound` is what binding gave, with the cause as text where it failed.
    ///
    /// A listener that could not be bound is fatal to the attempt: nothing is
    /// set up, and the cause is handed on as [`Error::Setup`]. With a bound
    /// listener the transport is set up as [`build`](Self::build) does, and the
    /// runtime runs the accept loop on the listener's side of it.
    pub fn connect(self, bound: Result<(), String>) -> (result: Result<
        (WebSocketServerSocket, WebSocketServerTask),
        Error,
    >)
        ensures
            match bound {
                Ok(_) => result matches Ok(parts) && self.builds(parts),
                Err(cause) => result matches Err(Error::Setup(text)) && text == cause,
            },
    {
        match bound {
            Ok(_) => Ok(self.build()),
            Err(cause) => Err(Error::Setup(cause)),
        }
    }

    /// Sets up what the transport and its background tasks share: the inbound
    /// channel, whose receiving end goes to the receiver half, and the peer table,
    /// which the sender half and the listener both hold. Returns the transport,
    /// with no peers and a zeroed buffer, and the listener's side of it.
    pub fn build(self) -> (parts: (WebSocketServerSocket, WebSocketServerTask))
        ensures
            self.builds(parts),
    {
        let (serverbound_tx, serverbound_rx) = unbounded_channel::<(PeerAddr, Message)>();
        let clientbound_tx_map = ClientBoundTxMap::new();
        let sender = WebSocketServerSocketSender {
            server_addr: self.server_addr,
            addr_to_clientbound_tx: clientbound_tx_map.clone(),
        };
        let receiver = WebSocketServerSocketReceiver {
            buffer: [0;MTU],
            server_addr: self.server_addr,
            serverbound_rx,
        };
        assert(receiver.buffer@ =~= Seq::new(MTU as nat, |i: int| 0u8));
        let socket = WebSocketServerSocket { local_addr: self.server_addr, sender, receiver };
        let task = WebSocketServerTask {
            server_addr: self.server_addr,
            serverbound_tx,
            clientbound_tx_map,
        };
        (socket, task)
    }
}

/// The listener's side of a WebSocket server transport: what the accept loop
/// holds, and decides with.
///
/// The runtime accepts a peer and completes its handshake, then calls
/// [`peer_connected`](WebSocketServerTask::peer_connected) and runs the two
/// tasks of the peer on the ends it gets. When either task ends it stops the other
/// and calls [`peer_disconnected`](WebSocketServerTask::peer_disconnected), once.
/// A control message from the owner goes to
/// [`on_control`](WebSocketServerTask::on_control).
pub struct WebSocketServerTask {
    server_addr: PeerAddr,
    serverbound_tx: UnboundedSender<(PeerAddr, Message)>,
    clientbound_tx_map: ClientBoundTxMap,
}

/// The channel ends of one peer's pair of tasks.
pub struct PeerSession {
    /// For the outbound task: what the sender half queued for this peer. The
    /// task writes each message to the socket, and closes the socket when the
    /// channel closes.
    pub clientbound_rx: UnboundedReceiver<Message>,
    /// For the inbound task: where the frames read from the socket go.
    pub inbound: InboundForwarder,
}

/// Pushes the frames of one peer onto the inbound channel that all peers share.
pub struct InboundForwarder {
    peer: PeerAddr,
    serverbound_tx: UnboundedSender<(PeerAddr, Message)>,
}

impl InboundForwarder {
    /// The peer whose frames are forwarded.
    pub closed spec fn of(&self) -> PeerAddr {
        self.peer
    }

    /// The peer whose frames are forwarded.
    pub fn peer(&self) -> (peer: PeerAddr)
        ensures
            peer == self.of(),
    {
        self.peer
    }

    /// What is queued for a frame read from the socket of the peer: the frame
    /// as it is, under the peer's own address.
    pub fn tagged(&self, message: Message) -> (item: (PeerAddr, Message))
        ensures
            item.0 == self.of(),
            item.1 == message,
    {
        (self.peer, message)
    }

    /// Queues `message`, under the address of the peer, for the receiver half:
    /// what is offered to the inbound channel is [`tagged`](Self::tagged) of
    /// it. Tells whether it was queued: it is not once the receiver half is gone,
    /// which is all that the channel decides.
    pub fn forward(&self, message: Message) -> (queued: bool) {
        offer(&self.serverbound_tx, self.tagged(message))
    }
}

impl WebSocketServerTask {
    /// The address the server listens on.
    pub closed spec fn bound_to(&self) -> PeerAddr {
        self.server_addr
    }

    /// The peer table this listener files its peers in: the one that the
    /// sender half routes with.
    pub closed spec fn peers(&self) -> ClientBoundTxMap {
        self.clientbound_tx_map
    }

    /// The address the server listens on.
    pub fn local_addr(&self) -> (address: PeerAddr)
        ensures
            address == self.bound_to(),
    {
        self.server_addr
    }

    /// What accepting a peer comes to, once the peer table has answered
    /// whether the peer had an entry already, or could not.
    ///
    /// A peer without an entry gets its session. A peer with an entry is
    /// refused: that entry belongs to a pair of tasks that has not reported its
    /// end yet, and will take it out when it does.
    pub open spec fn accepts(registered: Result<bool, Error>) -> Result<(), Error> {
        match registered {
            Ok(present) => if present {
                Err(Error::AlreadyConnected)
            } else {
                Ok(())
            },
            Err(e) => Err(e),
        }
    }

    /// Does for `registered` what [`accepts`](Self::accepts) says: hands the
    /// session out or the error on.
    pub fn session_for(registered: Result<bool, Error>, session: PeerSession) -> (result: Result<
        PeerSession,
        Error,
    >)
        ensures
            match Self::accepts(registered) {
                Ok(_) => result == Ok::<PeerSession, Error>(session),
                Err(e) => result == Err::<PeerSession, Error>(e),
            },
    {
        match registered {
            Ok(present) => if present {
                Err(Error::AlreadyConnected)
            } else {
                Ok(session)
            },
            Err(e) => Err(e),
        }
    }

    /// A peer was accepted: opens its outbound channel, files the sending end
    /// in the peer table and hands the other ends out for its pair of tasks.
    ///
    /// A peer that has an entry already is refused with
    /// [`Error::AlreadyConnected`], and nothing is filed: the runtime drops its
    /// connection and does not report its end.
    pub fn peer_connected(&self, peer: PeerAddr) -> (session: Result<PeerSession, Error>)
        ensures
            session matches Ok(s) ==> s.inbound.of() == peer,
            session matches Err(e) ==> e == Error::Poisoned || e == Error::AlreadyConnected,
    {
        let (clientbound_tx, clientbound_rx) = unbounded_channel::<Message>();
        let session = PeerSession {
            clientbound_rx,
            inbound: InboundForwarder {
                peer,
                serverbound_tx: another_sender(&self.serverbound_tx),
            },
        };
        Self::session_for(self.clientbound_tx_map.register(peer, clientbound_tx), session)
    }

    /// The pair of tasks of a peer ended: takes its entry out of the peer table,
    /// which drops the sending end of its outbound channel. Tells whether there
    /// was an entry.
    pub fn peer_disconnected(&self, peer: &PeerAddr) -> (removed: Result<bool, Error>)
        ensures
            removed matches Err(e) ==> e == Error::Poisoned,
    {
        self.clientbound_tx_map.unregister(peer)
    }

    /// A control message from the owner arrived. A stopped server drops every
    /// peer's channel, which ends their tasks, and the accept loop should end; a
    /// client that asked to disconnect has its channel dropped. Tells whether the
    /// accept loop should end.
    pub fn on_control(&self, event: &ServerNetworkEvent) -> (stop: Result<bool, Error>)
        ensures
            stop matches Ok(s) ==> s == (*event == ServerNetworkEvent::ServerDisconnected),
            stop matches Err(e) ==> e == Error::Poisoned,
    {
        self.clientbound_tx_map.apply_control(event)
    }
}

} // verus!
