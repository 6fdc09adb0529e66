//! The io façade: the one object through which a simulation loop sends,
//! receives, closes and reads traffic statistics, whatever transport is behind.
use vstd::prelude::*;

use crate::transport::addr::PeerAddr;
use crate::transport::channel::Polled;
use crate::transport::diagnostics::IoDiagnosticsPlugin;
use crate::transport::diagnostics::IoSample;
use crate::transport::error::Error;
use crate::transport::events::ClientIoEvent;
use crate::transport::events::ClientIoEventReceiver;
use crate::transport::stats::lemma_replay_sums;
use crate::transport::stats::lemma_total_push;
use crate::transport::stats::received_sizes;
use crate::transport::stats::sent_sizes;
use crate::transport::stats::total;
use crate::transport::stats::IoStats;
use crate::transport::stats::Totals;
use crate::transport::stats::Traffic;
use crate::transport::CloseFn;
use crate::transport::PacketReceiver;
use crate::transport::PacketSender;
use crate::transport::Transport;
use crate::transport::MTU;

verus! {

/// The state of the connection behind an io.
///
/// It moves from `Connecting` to `Connected` to `Disconnected` and never back;
/// `Disconnected` is final.
#[derive(Clone, Copy, Debug, PartialEq, Eq, Structural)]
pub enum IoState {
    Connecting,
    Connected,
    Disconnected,
}

impl IoState {
    /// How far along its life a connection in this state is.
    pub open spec fn rank(self) -> nat {
        match self {
            IoState::Connecting => 0,
            IoState::Connected => 1,
            IoState::Disconnected => 2,
        }
    }

    /// The state after an event of the io task was consumed in this state.
    pub open spec fn after(self, event: ClientIoEvent) -> IoState {
        match self {
            IoState::Disconnected => IoState::Disconnected,
            _ => match event {
                ClientIoEvent::Connected => IoState::Connected,
                ClientIoEvent::Disconnected(_) => IoState::Disconnected,
            },
        }
    }

    /// The state after every event of `events` was consumed, in order.
    pub open spec fn after_all(self, events: Seq<ClientIoEvent>) -> IoState
        decreases events.len(),
    {
        if events.len() == 0 {
            self
        } else {
            self.after_all(events.drop_last()).after(events.last())
        }
    }

    /// The state after an event of the io task was consumed in this state.
    pub fn on_event(self, event: &ClientIoEvent) -> (next: IoState)
        ensures
            next == self.after(*event),
    {
        match self {
            IoState::Disconnected => IoState::Disconnected,
            _ => match event {
                ClientIoEvent::Connected => IoState::Connected,
                ClientIoEvent::Disconnected(_) => IoState::Disconnected,
            },
        }
    }

    /// No event moves a connection backward, and none leaves `Disconnected`.
    pub proof fn lemma_after_moves_forward(self, event: ClientIoEvent)
        ensures
            self.rank() <= self.after(event).rank(),
            self == IoState::Disconnected ==> self.after(event) == IoState::Disconnected,
    {
    }

    /// Whatever events arrive, in whatever order, a connection never moves
    /// backward, and once it is `Disconnected` it stays so.
    pub proof fn lemma_after_all_moves_forward(self, events: Seq<ClientIoEvent>)
        ensures
            self.rank() <= self.after_all(events).rank(),
            self == IoState::Disconnected ==> self.after_all(events) == IoState::Disconnected,
        decreases events.len(),
    {
        if events.len() > 0 {
            self.lemma_after_all_moves_forward(events.drop_last());
            self.after_all(events.drop_last()).lemma_after_moves_forward(events.last());
        }
    }
}

/// The two counters of one direction, together with the payload sizes they
/// have counted since they were last at zero.
struct Tally {
    bytes: usize,
    packets: usize,
    sizes: Ghost<Seq<nat>>,
}

impl Tally {
    /// The counters hold exactly the sum and the number of the counted sizes.
    #[verifier::type_invariant]
    spec fn balanced(&self) -> bool {
        self.bytes == total(self.sizes@) && self.packets == self.sizes@.len()
    }

    /// Whether one more packet of `len` bytes can still be counted.
    spec fn has_room(&self, len: nat) -> bool {
        self.bytes + len <= usize::MAX && self.packets < usize::MAX
    }

    /// Counters at zero, which have counted nothing.
    fn new() -> (tally: Tally)
        ensures
            tally.bytes == 0,
            tally.packets == 0,
            tally.sizes@ == Seq::<nat>::empty(),
    {
        Tally { bytes: 0, packets: 0, sizes: Ghost(Seq::empty()) }
    }

    /// Counts one packet of `len` bytes.
    fn record(&mut self, len: usize)
        requires
            old(self).has_room(len as nat),
        ensures
            final(self).bytes == old(self).bytes + len,
            final(self).packets == old(self).packets + 1,
            final(self).sizes@ == old(self).sizes@.push(len as nat),
    {
        proof {
            use_type_invariant(&*self);
            lemma_total_push(self.sizes@, len as nat);
        }
        let bytes: usize = self.bytes + len;
        let packets: usize = self.packets + 1;
        *self = Tally { bytes, packets, sizes: Ghost(self.sizes@.push(len as nat)) };
    }
}

/// The sender half of an io: the sender of the transport, with the counters of
/// what was sent.
///
/// Every send on an open io is counted, whatever the transport then answers,
/// and the answer of the transport is the result. Once the io is disconnected a
/// send reaches nothing, counts nothing and fails with [`Error::IoClosed`].
pub struct IoSender<S: PacketSender> {
    inner: S,
    tally: Tally,
    closed: bool,
}

impl<S: PacketSender> IoSender<S> {
    /// The sender of the transport.
    pub closed spec fn transport(&self) -> S {
        self.inner
    }

    /// Whether the io is disconnected.
    pub closed spec fn is_closed(&self) -> bool {
        self.closed
    }

    /// The bytes sent since the counters were last at zero.
    pub closed spec fn bytes(&self) -> usize {
        self.tally.bytes
    }

    /// The packets sent since the counters were last at zero.
    pub closed spec fn packets(&self) -> usize {
        self.tally.packets
    }

    /// The payload sizes of the packets sent since the counters were last at
    /// zero, in order.
    pub closed spec fn sizes(&self) -> Seq<nat> {
        self.tally.sizes@
    }

    /// Whether one more packet of `len` bytes can still be counted.
    pub open spec fn has_room(&self, len: nat) -> bool {
        self.bytes() + len <= usize::MAX && self.packets() < usize::MAX
    }

    /// Everything but whether the io is disconnected is the same in `self` and
    /// `other`.
    pub open spec fn same_but_closed(&self, other: &Self) -> bool {
        &&& self.transport() == other.transport()
        &&& self.bytes() == other.bytes()
        &&& self.packets() == other.packets()
        &&& self.sizes() == other.sizes()
    }

    /// A sender half over the sender of a transport, with counters at zero.
    fn new(inner: S, closed: bool) -> (sender: Self)
        ensures
            sender.transport() == inner,
            sender.is_closed() == closed,
            sender.bytes() == 0,
            sender.packets() == 0,
            sender.sizes() == Seq::<nat>::empty(),
    {
        IoSender { inner, tally: Tally::new(), closed }
    }

    /// The bytes and the packets sent since the counters were last at zero:
    /// exactly the sum and the number of the payload sizes of every send through
    /// this half.
    pub fn counters(&self) -> (counters: (usize, usize))
        ensures
            counters == (self.bytes(), self.packets()),
            counters.0 == total(self.sizes()),
            counters.1 == self.sizes().len(),
    {
        proof {
            use_type_invariant(&self.tally);
        }
        (self.tally.bytes, self.tally.packets)
    }

    /// Whether a send of `len` bytes can be counted, or need not be because the
    /// io is disconnected.
    pub fn can_count(&self, len: usize) -> (ok: bool)
        ensures
            ok == (self.is_closed() || self.has_room(len as nat)),
    {
        self.closed || (len <= usize::MAX - self.tally.bytes && self.tally.packets < usize::MAX)
    }
}

impl<S: PacketSender> PacketSender for IoSender<S> {
    /// On an open io there must be room in the counters, and the transport must
    /// be ready.
    open spec fn send_ready(&self, len: nat) -> bool {
        !self.is_closed() ==> self.has_room(len) && self.transport().send_ready(len)
    }

    /// On a disconnected io a send fails and changes nothing. On an open io it
    /// counts the payload and is the send of the transport.
    open spec fn sent(
        &self,
        payload: Seq<u8>,
        address: PeerAddr,
        after: &Self,
        result: Result<(), Error>,
    ) -> bool {
        if self.is_closed() {
            result == Err::<(), Error>(Error::IoClosed) && *after == *self
        } else {
            &&& !after.is_closed()
            &&& after.sizes() == self.sizes().push(payload.len())
            &&& after.bytes() == self.bytes() + payload.len()
            &&& after.packets() == self.packets() + 1
            &&& self.transport().sent(payload, address, &after.transport(), result)
        }
    }

    fn send(&mut self, payload: &[u8], address: &PeerAddr) -> (result: Result<(), Error>) {
        if self.closed {
            return Err(Error::IoClosed);
        }
        self.tally.record(payload.len());
        self.inner.send(payload, address)
    }
}

/// The receiver half of an io: the receiver of the transport, with the
/// counters of what was received.
///
/// Every packet polled on an open io is counted, and the answer of the
/// transport is the result. Once the io is disconnected a poll reaches
/// nothing, counts nothing and fails with [`Error::IoClosed`].
pub struct IoReceiver<R: PacketReceiver> {
    inner: R,
    tally: Tally,
    closed: bool,
}

impl<R: PacketReceiver> IoReceiver<R> {
    /// The receiver of the transport.
    pub closed spec fn transport(&self) -> R {
        self.inner
    }

    /// Whether the io is disconnected.
    pub closed spec fn is_closed(&self) -> bool {
        self.closed
    }

    /// The bytes received since the counters were last at zero.
    pub closed spec fn bytes(&self) -> usize {
        self.tally.bytes
    }

    /// The packets received since the counters were last at zero.
    pub closed spec fn packets(&self) -> usize {
        self.tally.packets
    }

    /// The payload sizes of the packets received since the counters were last
    /// at zero, in order.
    pub closed spec fn sizes(&self) -> Seq<nat> {
        self.tally.sizes@
    }

    /// Whether one more packet of `len` bytes can still be counted.
    pub open spec fn has_room(&self, len: nat) -> bool {
        self.bytes() + len <= usize::MAX && self.packets() < usize::MAX
    }

    /// Everything but whether the io is disconnected is the same in `self` and
    /// `other`.
    pub open spec fn same_but_closed(&self, other: &Self) -> bool {
        &&& self.transport() == other.transport()
        &&& self.bytes() == other.bytes()
        &&& self.packets() == other.packets()
        &&& self.sizes() == other.sizes()
    }

    /// The counters, and what they have counted, are the same in `self` and
    /// `other`.
    pub open spec fn same_counters(&self, other: &Self) -> bool {
        &&& self.bytes() == other.bytes()
        &&& self.packets() == other.packets()
        &&& self.sizes() == other.sizes()
    }

    /// A receiver half over the receiver of a transport, with counters at zero.
    fn new(inner: R, closed: bool) -> (receiver: Self)
        ensures
            receiver.transport() == inner,
            receiver.is_closed() == closed,
            receiver.bytes() == 0,
            receiver.packets() == 0,
            receiver.sizes() == Seq::<nat>::empty(),
    {
        IoReceiver { inner, tally: Tally::new(), closed }
    }

    /// The bytes and the packets received since the counters were last at zero:
    /// exactly the sum and the number of the payload sizes of every packet that
    /// a poll of this half handed out.
    pub fn counters(&self) -> (counters: (usize, usize))
        ensures
            counters == (self.bytes(), self.packets()),
            counters.0 == total(self.sizes()),
            counters.1 == self.sizes().len(),
    {
        proof {
            use_type_invariant(&self.tally);
        }
        (self.tally.bytes, self.tally.packets)
    }

    /// Whether a packet of the largest size can be counted, or need not be
    /// because the io is disconnected.
    pub fn can_count(&self) -> (ok: bool)
        ensures
            ok == (self.is_closed() || self.has_room(MTU as nat)),
    {
        self.closed || (MTU <= usize::MAX - self.tally.bytes && self.tally.packets < usize::MAX)
    }
}

impl<R: PacketReceiver> PacketReceiver for IoReceiver<R> {
    /// On an open io there must be room in the counters for a packet of the
    /// largest size, and the transport must be ready.
    open spec fn recv_ready(&self) -> bool {
        !self.is_closed() ==> self.has_room(MTU as nat) && self.transport().recv_ready()
    }

    /// On a disconnected io a poll fails and changes nothing. On an open io it
    /// is the poll of the transport, and counts the packet if there is one.
    open spec fn received(
        &self,
        after: &Self,
        outcome: Result<Option<(Seq<u8>, Seq<u8>, PeerAddr)>, Error>,
    ) -> bool {
        if self.is_closed() {
            outcome == Err::<Option<(Seq<u8>, Seq<u8>, PeerAddr)>, Error>(Error::IoClosed)
                && *after == *self
        } else {
            &&& !after.is_closed()
            &&& self.transport().received(&after.transport(), outcome)
            &&& match outcome {
                Ok(Some((bytes, _, _))) => {
                    &&& bytes.len() <= MTU
                    &&& after.sizes() == self.sizes().push(bytes.len())
                    &&& after.bytes() == self.bytes() + bytes.len()
                    &&& after.packets() == self.packets() + 1
                },
                _ => after.same_counters(self),
            }
        }
    }

    fn recv(&mut self) -> (result: Result<Option<(&mut [u8], PeerAddr)>, Error>) {
        if self.closed {
            return Err(Error::IoClosed);
        }
        match self.inner.recv() {
            Ok(Some((buf, address))) => {
                self.tally.record(buf.len());
                Ok(Some((buf, address)))
            },
            Ok(None) => Ok(None),
            Err(e) => Err(e),
        }
    }
}

/// Connected io layer that can send and receive packets.
///
/// It wraps the two halves of a transport, tracks the state of the connection,
/// counts the traffic, and tears the transport down once, in
/// [`close`](Io::close). The state changes only by events consumed in
/// [`poll_event`](Io::poll_event) and by `close`. The counters change only by
/// sending and receiving, through [`send`](Io::send) and [`recv`](Io::recv) or
/// through the halves that [`split`](Io::split) hands out, and in
/// [`sample`](Io::sample), which sets them back to zero.
pub struct Io<S: PacketSender, R: PacketReceiver, C: CloseFn> {
    local_addr: PeerAddr,
    sender: IoSender<S>,
    receiver: IoReceiver<R>,
    close_fn: Option<C>,
    state: IoState,
    event_receiver: Option<ClientIoEventReceiver>,
}

impl<S: PacketSender, R: PacketReceiver, C: CloseFn> Io<S, R, C> {
    /// The address the transport is bound to.
    pub closed spec fn spec_local_addr(&self) -> PeerAddr {
        self.local_addr
    }

    /// The sender half.
    pub closed spec fn spec_sender(&self) -> IoSender<S> {
        self.sender
    }

    /// The receiver half.
    pub closed spec fn spec_receiver(&self) -> IoReceiver<R> {
        self.receiver
    }

    /// The teardown of the transport, until it has run.
    pub closed spec fn spec_close_fn(&self) -> Option<C> {
        self.close_fn
    }

    /// The state of the connection.
    pub closed spec fn spec_state(&self) -> IoState {
        self.state
    }

    /// Where the events of the io task arrive, if the transport has an io task
    /// that reports any.
    pub closed spec fn spec_event_receiver(&self) -> Option<ClientIoEventReceiver> {
        self.event_receiver
    }

    /// The traffic counters: those of the two halves, put together.
    pub open spec fn spec_stats(&self) -> IoStats {
        IoStats {
            bytes_sent: self.spec_sender().bytes(),
            bytes_received: self.spec_receiver().bytes(),
            packets_sent: self.spec_sender().packets(),
            packets_received: self.spec_receiver().packets(),
        }
    }

    /// The io is closed for good: disconnected, both halves with it, and its
    /// teardown done.
    pub open spec fn is_closed(&self) -> bool {
        &&& self.spec_state() == IoState::Disconnected
        &&& self.spec_close_fn() is None
        &&& self.spec_sender().is_closed()
        &&& self.spec_receiver().is_closed()
    }

    /// What sending, receiving and sampling never touch is the same in `self`
    /// and `other`: the address, the state, the teardown and the event channel.
    pub open spec fn same_connection(&self, other: &Self) -> bool {
        &&& self.spec_local_addr() == other.spec_local_addr()
        &&& self.spec_state() == other.spec_state()
        &&& self.spec_close_fn() == other.spec_close_fn()
        &&& self.spec_event_receiver() == other.spec_event_receiver()
    }

    /// The address, the event channel, the transport and the counters are the
    /// same in `self` and `other`: everything but the state, the teardown and
    /// whether the halves are disconnected.
    pub open spec fn same_transport(&self, other: &Self) -> bool {
        &&& self.spec_local_addr() == other.spec_local_addr()
        &&& self.spec_event_receiver() == other.spec_event_receiver()
        &&& self.spec_sender().same_but_closed(&other.spec_sender())
        &&& self.spec_receiver().same_but_closed(&other.spec_receiver())
    }

    /// What a change of state does to the rest of the io, where `before` is
    /// the io before the change: when the state is `Disconnected` both halves
    /// are disconnected with it, a half that was disconnected stays so, and
    /// nothing else changes.
    pub open spec fn follows_state(&self, before: &Self) -> bool {
        &&& self.same_transport(before)
        &&& self.spec_close_fn() == before.spec_close_fn()
        &&& self.spec_sender().is_closed() == (before.spec_sender().is_closed()
            || self.spec_state() == IoState::Disconnected)
        &&& self.spec_receiver().is_closed() == (before.spec_receiver().is_closed()
            || self.spec_state() == IoState::Disconnected)
    }

    /// This io once it is closed: disconnected, both halves with it, its
    /// teardown taken out, everything else as it is.
    pub closed spec fn after_close(self) -> Self {
        Io {
            state: IoState::Disconnected,
            close_fn: None,
            sender: IoSender { closed: true, ..self.sender },
            receiver: IoReceiver { closed: true, ..self.receiver },
            ..self
        }
    }

    /// An io over the two halves of a transport, in the given state, with
    /// counters at zero.
    pub fn new(
        local_addr: PeerAddr,
        sender: S,
        receiver: R,
        close_fn: Option<C>,
        state: IoState,
        event_receiver: Option<ClientIoEventReceiver>,
    ) -> (io: Self)
        ensures
            io.spec_local_addr() == local_addr,
            io.spec_sender().transport() == sender,
            io.spec_receiver().transport() == receiver,
            io.spec_close_fn() == close_fn,
            io.spec_state() == state,
            io.spec_event_receiver() == event_receiver,
            io.spec_sender().is_closed() == (state == IoState::Disconnected),
            io.spec_receiver().is_closed() == (state == IoState::Disconnected),
            io.spec_stats()@ == Totals::zero(),
            io.spec_sender().sizes() == Seq::<nat>::empty(),
            io.spec_receiver().sizes() == Seq::<nat>::empty(),
    {
        let closed = state == IoState::Disconnected;
        Io {
            local_addr,
            sender: IoSender::new(sender, closed),
            receiver: IoReceiver::new(receiver, closed),
            close_fn,
            state,
            event_receiver,
        }
    }

    /// An io over a transport, which is taken apart into its halves.
    pub fn from_transport<T: Transport<Sender = S, Receiver = R, Close = C>>(
        transport: T,
        state: IoState,
        event_receiver: Option<ClientIoEventReceiver>,
    ) -> (io: Self)
        ensures
            transport.is_bound_to(io.spec_local_addr()),
            transport.splits_into(
                (
                    io.spec_sender().transport(),
                    io.spec_receiver().transport(),
                    io.spec_close_fn(),
                ),
            ),
            io.spec_state() == state,
            io.spec_event_receiver() == event_receiver,
            io.spec_sender().is_closed() == (state == IoState::Disconnected),
            io.spec_receiver().is_closed() == (state == IoState::Disconnected),
            io.spec_stats()@ == Totals::zero(),
            io.spec_sender().sizes() == Seq::<nat>::empty(),
            io.spec_receiver().sizes() == Seq::<nat>::empty(),
    {
        let local_addr = transport.local_addr();
        let (sender, receiver, close_fn) = transport.split();
        Io::new(local_addr, sender, receiver, close_fn, state, event_receiver)
    }

    /// The address the transport is bound to.
    pub fn local_addr(&self) -> (address: PeerAddr)
        ensures
            address == self.spec_local_addr(),
    {
        self.local_addr
    }

    /// The state of the connection.
    pub fn state(&self) -> (state: IoState)
        ensures
            state == self.spec_state(),
    {
        self.state
    }

    /// The traffic counters: those of the two halves, put together.
    ///
    /// Whatever was sent and received since the counters were last at zero,
    /// through this io or through its halves: each counter is exactly the sum of
    /// the payload sizes, or the number of packets, of its direction. In
    /// whatever order the sends and the receives came, the counters are what
    /// replaying them in that order gives.
    pub fn stats(&self) -> (stats: IoStats)
        ensures
            stats == self.spec_stats(),
            stats.bytes_sent == total(self.spec_sender().sizes()),
            stats.packets_sent == self.spec_sender().sizes().len(),
            stats.bytes_received == total(self.spec_receiver().sizes()),
            stats.packets_received == self.spec_receiver().sizes().len(),
            forall|log: Seq<Traffic>|
                #![trigger sent_sizes(log), received_sizes(log)]
                sent_sizes(log) == self.spec_sender().sizes() && received_sizes(log)
                    == self.spec_receiver().sizes() ==> stats@ == Totals::zero().replay(log),
    {
        let (bytes_sent, packets_sent) = self.sender.counters();
        let (bytes_received, packets_received) = self.receiver.counters();
        let stats = IoStats { bytes_sent, bytes_received, packets_sent, packets_received };
        assert forall|log: Seq<Traffic>|
            #![trigger sent_sizes(log), received_sizes(log)]
            sent_sizes(log) == self.spec_sender().sizes() && received_sizes(log)
                == self.spec_receiver().sizes() implies stats@ == Totals::zero().replay(log) by {
            lemma_replay_sums(Totals::zero(), log);
        }
        stats
    }

    /// Sends `payload` to `address` through the sender half, which counts it.
    ///
    /// The packet is counted whatever the transport then answers, and the
    /// answer of the transport is the result. An io that is disconnected sends
    /// nothing, counts nothing and fails with [`Error::IoClosed`].
    pub fn send(&mut self, payload: &[u8], address: &PeerAddr) -> (result: Result<(), Error>)
        requires
            payload@.len() <= MTU,
            old(self).spec_state() != IoState::Disconnected ==> old(self).spec_sender().send_ready(
                payload@.len(),
            ),
        ensures
            final(self).same_connection(old(self)),
            final(self).spec_receiver() == old(self).spec_receiver(),
            old(self).spec_state() == IoState::Disconnected ==> {
                &&& result matches Err(Error::IoClosed)
                &&& *final(self) == *old(self)
            },
            old(self).spec_state() != IoState::Disconnected ==> old(self).spec_sender().sent(
                payload@,
                *address,
                &final(self).spec_sender(),
                result,
            ),
    {
        if self.state == IoState::Disconnected {
            return Err(Error::IoClosed);
        }
        self.sender.send(payload, address)
    }

    /// Polls the receiver half for one packet, which counts it if there is one.
    ///
    /// The answer of the transport is the result; an error of the transport is
    /// handed on as it is, for the caller to decide whether to disconnect. An io
    /// that is disconnected polls nothing, counts nothing and fails with
    /// [`Error::IoClosed`].
    pub fn recv(&mut self) -> (result: Result<Option<(&mut [u8], PeerAddr)>, Error>)
        requires
            old(self).spec_state() != IoState::Disconnected ==> old(
                self,
            ).spec_receiver().recv_ready(),
        ensures
            final(self).same_connection(old(self)),
            final(self).spec_sender() == old(self).spec_sender(),
            old(self).spec_state() == IoState::Disconnected ==> {
                &&& result matches Err(Error::IoClosed)
                &&& *final(self) == *old(self)
            },
            old(self).spec_state() != IoState::Disconnected ==> (match result {
                Ok(Some((buf, address))) => old(self).spec_receiver().received(
                    &final(self).spec_receiver(),
                    Ok(Some((buf@, final(buf)@, address))),
                ),
                Ok(None) => old(self).spec_receiver().received(
                    &final(self).spec_receiver(),
                    Ok(None),
                ),
                Err(e) => old(self).spec_receiver().received(&final(self).spec_receiver(), Err(e)),
            }),
    {
        if self.state == IoState::Disconnected {
            return Err(Error::IoClosed);
        }
        self.receiver.recv()
    }

    /// Independent mutable views of the sender half and the receiver half, so
    /// that a caller can read and write in the same scope. Each half counts its
    /// own direction and fails once the io is disconnected, so what passes
    /// through the views is counted as what passes through [`send`](Io::send)
    /// and [`recv`](Io::recv) is. Nothing else of the io changes.
    pub fn split(&mut self) -> (halves: (&mut IoSender<S>, &mut IoReceiver<R>))
        ensures
            *halves.0 == old(self).spec_sender(),
            *halves.1 == old(self).spec_receiver(),
            final(self).spec_sender() == *final(halves.0),
            final(self).spec_receiver() == *final(halves.1),
            final(self).same_connection(old(self)),
    {
        (&mut self.sender, &mut self.receiver)
    }

    /// Closes the io: the state becomes `Disconnected`, both halves with it, and
    /// the teardown of the transport, if it has not run yet, runs now and decides
    /// the result. A second call finds nothing left to do, changes nothing and
    /// succeeds.
    pub fn close(&mut self) -> (result: Result<(), Error>)
        ensures
            *final(self) == old(self).after_close(),
            final(self).is_closed(),
            final(self).same_transport(old(self)),
            match old(self).spec_close_fn() {
                Some(close_fn) => close_fn.closed(result),
                None => result is Ok,
            },
            old(self).is_closed() ==> *final(self) == *old(self),
    {
        self.state = IoState::Disconnected;
        self.sender.closed = true;
        self.receiver.closed = true;
        match self.close_fn.take() {
            Some(close_fn) => close_fn.close(),
            None => Ok(()),
        }
    }

    /// Applies one event of the io task to the state. When the state becomes
    /// `Disconnected`, both halves are disconnected with it; nothing else
    /// changes.
    pub fn apply_event(&mut self, event: &ClientIoEvent)
        ensures
            final(self).spec_state() == old(self).spec_state().after(*event),
            final(self).follows_state(old(self)),
    {
        self.state = self.state.on_event(event);
        if self.state == IoState::Disconnected {
            self.sender.closed = true;
            self.receiver.closed = true;
        }
    }

    /// Polls the io task for one event, without waiting, applies it to the
    /// state and hands it out. An io without an io task has no events. Once per
    /// tick is enough.
    pub fn poll_event(&mut self) -> (polled: Polled<ClientIoEvent>)
        ensures
            old(self).spec_event_receiver() is None ==> polled is Empty,
            match polled {
                Polled::Item(event) => {
                    &&& final(self).spec_state() == old(self).spec_state().after(event)
                    &&& final(self).follows_state(old(self))
                },
                _ => *final(self) == *old(self),
            },
    {
        let polled = match &self.event_receiver {
            Some(receiver) => receiver.try_recv(),
            None => Polled::Empty,
        };
        match &polled {
            Polled::Item(event) => {
                self.apply_event(event);
            },
            _ => {},
        }
        polled
    }

    /// Takes one diagnostics sample of the traffic counters, which start again
    /// from zero; when no time has passed, nothing is sampled and the counters
    /// are left alone. Nothing else of the io changes.
    pub fn sample(&mut self, elapsed_nanos: u128) -> (sample: Option<IoSample>)
        ensures
            (final(self).spec_stats(), sample) == IoDiagnosticsPlugin::sampled(
                old(self).spec_stats(),
                elapsed_nanos,
            ),
            elapsed_nanos == 0 ==> sample is None && *final(self) == *old(self),
            elapsed_nanos != 0 ==> {
                &&& sample is Some
                &&& final(self).spec_stats()@ == Totals::zero()
                &&& final(self).spec_sender().sizes() == Seq::<nat>::empty()
                &&& final(self).spec_receiver().sizes() == Seq::<nat>::empty()
            },
            final(self).same_connection(old(self)),
            final(self).spec_sender().transport() == old(self).spec_sender().transport(),
            final(self).spec_sender().is_closed() == old(self).spec_sender().is_closed(),
            final(self).spec_receiver().transport() == old(self).spec_receiver().transport(),
            final(self).spec_receiver().is_closed() == old(self).spec_receiver().is_closed(),
    {
        let mut stats: IoStats = self.stats();
        let sample = IoDiagnosticsPlugin::update_diagnostics(&mut stats, elapsed_nanos);
        if sample.is_some() {
            self.sender.tally = Tally::new();
            self.receiver.tally = Tally::new();
        }
        sample
    }

    /// Closing is idempotent: closing a closed io leaves it as it is, so two
    /// calls of [`close`](Io::close) end in the state that one call ends in.
    pub proof fn lemma_close_idempotent(self)
        ensures
            self.after_close().is_closed(),
            self.after_close().same_transport(&self),
            self.after_close().after_close() == self.after_close(),
            self.is_closed() ==> self.after_close() == self,
    {
    }
}

} // verus!
