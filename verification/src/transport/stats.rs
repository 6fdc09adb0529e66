//! Traffic accounting: the counters of the io façade and their mathematical model.
use vstd::prelude::*;

verus! {

/// One packet that passed through the façade, with the size of its payload.
pub enum Traffic {
    Sent(nat),
    Received(nat),
}

/// Traffic counters as mathematical integers: the model of [`IoStats`].
pub struct Totals {
    pub bytes_sent: nat,
    pub bytes_received: nat,
    pub packets_sent: nat,
    pub packets_received: nat,
}

impl Totals {
    /// No traffic at all.
    pub open spec fn zero() -> Totals {
        Totals { bytes_sent: 0, bytes_received: 0, packets_sent: 0, packets_received: 0 }
    }

    /// The counters after one more packet of `len` bytes was sent.
    pub open spec fn sent(self, len: nat) -> Totals {
        Totals {
            bytes_sent: self.bytes_sent + len,
            packets_sent: self.packets_sent + 1,
            ..self
        }
    }

    /// The counters after one more packet of `len` bytes was received.
    pub open spec fn received(self, len: nat) -> Totals {
        Totals {
            bytes_received: self.bytes_received + len,
            packets_received: self.packets_received + 1,
            ..self
        }
    }

    /// The counters after one more packet passed.
    pub open spec fn record(self, packet: Traffic) -> Totals {
        match packet {
            Traffic::Sent(len) => self.sent(len),
            Traffic::Received(len) => self.received(len),
        }
    }

    /// The counters after every packet of `log` passed, in order.
    pub open spec fn replay(self, log: Seq<Traffic>) -> Totals
        decreases log.len(),
    {
        if log.len() == 0 {
            self
        } else {
            self.replay(log.drop_last()).record(log.last())
        }
    }

    /// Every counter can be held in a `usize`.
    pub open spec fn fits(self) -> bool {
        &&& self.bytes_sent <= usize::MAX
        &&& self.bytes_received <= usize::MAX
        &&& self.packets_sent <= usize::MAX
        &&& self.packets_received <= usize::MAX
    }
}

/// The sum of `sizes`.
pub open spec fn total(sizes: Seq<nat>) -> nat
    decreases sizes.len(),
{
    if sizes.len() == 0 {
        0
    } else {
        total(sizes.drop_last()) + sizes.last()
    }
}

/// The payload sizes of the packets sent in `log`, in order.
pub open spec fn sent_sizes(log: Seq<Traffic>) -> Seq<nat>
    decreases log.len(),
{
    if log.len() == 0 {
        Seq::empty()
    } else {
        match log.last() {
            Traffic::Sent(len) => sent_sizes(log.drop_last()).push(len),
            Traffic::Received(_) => sent_sizes(log.drop_last()),
        }
    }
}

/// The payload sizes of the packets received in `log`, in order.
pub open spec fn received_sizes(log: Seq<Traffic>) -> Seq<nat>
    decreases log.len(),
{
    if log.len() == 0 {
        Seq::empty()
    } else {
        match log.last() {
            Traffic::Sent(_) => received_sizes(log.drop_last()),
            Traffic::Received(len) => received_sizes(log.drop_last()).push(len),
        }
    }
}

/// The bytes of all payloads sent in `log`.
pub open spec fn bytes_sent_in(log: Seq<Traffic>) -> nat {
    total(sent_sizes(log))
}

/// The bytes of all payloads received in `log`.
pub open spec fn bytes_received_in(log: Seq<Traffic>) -> nat {
    total(received_sizes(log))
}

/// The number of packets sent in `log`.
pub open spec fn packets_sent_in(log: Seq<Traffic>) -> nat {
    sent_sizes(log).len()
}

/// The number of packets received in `log`.
pub open spec fn packets_received_in(log: Seq<Traffic>) -> nat {
    received_sizes(log).len()
}

/// The traffic counters of an io: bytes and packets, in each direction.
///
/// Only the send and receive paths of the façade add to them, and taking a
/// diagnostics sample sets them back to zero.
#[derive(Clone, Copy, Debug, PartialEq, Eq, Structural)]
pub struct IoStats {
    pub bytes_sent: usize,
    pub bytes_received: usize,
    pub packets_sent: usize,
    pub packets_received: usize,
}

impl View for IoStats {
    type V = Totals;

    open spec fn view(&self) -> Totals {
        Totals {
            bytes_sent: self.bytes_sent as nat,
            bytes_received: self.bytes_received as nat,
            packets_sent: self.packets_sent as nat,
            packets_received: self.packets_received as nat,
        }
    }
}

impl Default for IoStats {
    fn default() -> (stats: IoStats)
        ensures
            stats@ == Totals::zero(),
    {
        IoStats { bytes_sent: 0, bytes_received: 0, packets_sent: 0, packets_received: 0 }
    }
}

impl IoStats {
    /// Counters that have seen no traffic.
    pub fn new() -> (stats: IoStats)
        ensures
            stats@ == Totals::zero(),
    {
        IoStats { bytes_sent: 0, bytes_received: 0, packets_sent: 0, packets_received: 0 }
    }

    /// Counts one sent packet of `len` bytes.
    pub fn record_sent(&mut self, len: usize)
        requires
            old(self)@.sent(len as nat).fits(),
        ensures
            final(self)@ == old(self)@.sent(len as nat),
    {
        self.bytes_sent = self.bytes_sent + len;
        self.packets_sent = self.packets_sent + 1;
    }

    /// Counts one received packet of `len` bytes.
    pub fn record_received(&mut self, len: usize)
        requires
            old(self)@.received(len as nat).fits(),
        ensures
            final(self)@ == old(self)@.received(len as nat),
    {
        self.bytes_received = self.bytes_received + len;
        self.packets_received = self.packets_received + 1;
    }

    /// Whether one more sent packet of `len` bytes can still be counted.
    pub fn can_record_sent(&self, len: usize) -> (ok: bool)
        ensures
            ok == self@.sent(len as nat).fits(),
    {
        len <= usize::MAX - self.bytes_sent && self.packets_sent < usize::MAX
    }

    /// Whether one more received packet of `len` bytes can still be counted.
    pub fn can_record_received(&self, len: usize) -> (ok: bool)
        ensures
            ok == self@.received(len as nat).fits(),
    {
        len <= usize::MAX - self.bytes_received && self.packets_received < usize::MAX
    }

    /// Sets every counter back to zero, and hands out what they held.
    pub fn take(&mut self) -> (snapshot: IoStats)
        ensures
            snapshot == *old(self),
            final(self)@ == Totals::zero(),
    {
        let snapshot = *self;
        *self = IoStats::new();
        snapshot
    }
}

/// Replaying two logs one after the other is replaying their concatenation.
pub proof fn lemma_replay_concat(start: Totals, first: Seq<Traffic>, second: Seq<Traffic>)
    ensures
        start.replay(first + second) == start.replay(first).replay(second),
    decreases second.len(),
{
    if second.len() == 0 {
        assert(first + second =~= first);
    } else {
        lemma_replay_concat(start, first, second.drop_last());
        assert((first + second).drop_last() =~= first + second.drop_last());
        assert((first + second).last() == second.last());
    }
}

/// One more size adds itself to the sum.
pub proof fn lemma_total_push(sizes: Seq<nat>, len: nat)
    ensures
        total(sizes.push(len)) == total(sizes) + len,
{
    assert(sizes.push(len).drop_last() =~= sizes);
}

/// After any sequence of sends and receives, in whatever order they came, each
/// counter has grown by exactly the sum of the payload sizes, or the number of
/// packets, of its own direction.
pub proof fn lemma_replay_sums(start: Totals, log: Seq<Traffic>)
    ensures
        start.replay(log) == (Totals {
            bytes_sent: start.bytes_sent + bytes_sent_in(log),
            bytes_received: start.bytes_received + bytes_received_in(log),
            packets_sent: start.packets_sent + packets_sent_in(log),
            packets_received: start.packets_received + packets_received_in(log),
        }),
    decreases log.len(),
{
    if log.len() > 0 {
        lemma_replay_sums(start, log.drop_last());
        match log.last() {
            Traffic::Sent(len) => {
                lemma_total_push(sent_sizes(log.drop_last()), len);
            },
            Traffic::Received(len) => {
                lemma_total_push(received_sizes(log.drop_last()), len);
            },
        }
    }
}

/// Sends and receives do not disturb each other: traffic that arrives as `first`
/// then `second` leaves the same counters as `second` then `first`.
pub proof fn lemma_replay_order(start: Totals, first: Seq<Traffic>, second: Seq<Traffic>)
    ensures
        start.replay(first + second) == start.replay(second + first),
{
    lemma_replay_concat(start, first, second);
    lemma_replay_concat(start, second, first);
    lemma_replay_sums(start, first);
    lemma_replay_sums(start, second);
    lemma_replay_sums(start.replay(first), second);
    lemma_replay_sums(start.replay(second), first);
}

} // verus!
