//! The peers of a multi-peer transport: which remote endpoints are connected, and
//! the outbound channel of each.
//!
//! An entry exists exactly while a pair of background tasks serves that peer:
//! it is filed when the peer is accepted, and taken out once, when the pair has
//! ended. The table is shared between the sender half and the listener task, under
//! a lock that is held for one lookup, insertion or removal at a time, never across
//! I/O.
//!
//! [`PeerTable`] is the table as one holder sees it while it holds the lock, and
//! its operations say exactly what they do to it. [`ClientBoundTxMap`] is the
//! table behind its lock.
use vstd::prelude::*;
use std::sync::Arc;
use std::sync::Mutex;
use std::sync::MutexGuard;
use bevy::utils::hashbrown::HashMap;
use tokio::sync::mpsc::UnboundedSender;
use tokio_tungstenite::tungstenite::Message;

use crate::transport::addr::PeerAddr;
use crate::transport::addr::PeerKey;
use crate::transport::channel::binary_message;
use crate::transport::channel::offer;
use crate::transport::error::Error;
use crate::transport::events::ServerNetworkEvent;

verus! {

/// What happens to the set of connected peers.
pub enum PeerEvent {
    /// A peer was accepted, and its pair of tasks started.
    Connected(PeerAddr),
    /// The pair of tasks of a peer ended, or the owner asked to drop the peer.
    Disconnected(PeerAddr),
    /// The listener was told to stop: every peer is dropped.
    Shutdown,
}

impl PeerEvent {
    /// Whether this event can change the entry of `peer`.
    pub open spec fn concerns(self, peer: PeerAddr) -> bool {
        match self {
            PeerEvent::Connected(p) => p == peer,
            PeerEvent::Disconnected(p) => p == peer,
            PeerEvent::Shutdown => true,
        }
    }

    /// What a control message from the owner does to the connected peers.
    pub open spec fn of_control(event: ServerNetworkEvent) -> PeerEvent {
        match event {
            ServerNetworkEvent::ServerDisconnected => PeerEvent::Shutdown,
            ServerNetworkEvent::ClientDisconnected(p) => PeerEvent::Disconnected(p),
        }
    }
}

/// The connected peers after one event.
pub open spec fn after_event(peers: Set<PeerAddr>, event: PeerEvent) -> Set<PeerAddr> {
    match event {
        PeerEvent::Connected(p) => peers.insert(p),
        PeerEvent::Disconnected(p) => peers.remove(p),
        PeerEvent::Shutdown => Set::empty(),
    }
}

/// The connected peers after a sequence of events, in order.
pub open spec fn after_events(peers: Set<PeerAddr>, events: Seq<PeerEvent>) -> Set<PeerAddr>
    decreases events.len(),
{
    if events.len() == 0 {
        peers
    } else {
        after_event(after_events(peers, events.drop_last()), events.last())
    }
}

/// Whether the last event of `events` that concerns `peer` is its connection.
pub open spec fn connected_last(events: Seq<PeerEvent>, peer: PeerAddr) -> bool
    decreases events.len(),
{
    if events.len() == 0 {
        false
    } else if events.last().concerns(peer) {
        events.last() == PeerEvent::Connected(peer)
    } else {
        connected_last(events.drop_last(), peer)
    }
}

/// What became of a payload that was routed to a peer.
#[derive(Clone, Copy, Debug, PartialEq, Eq, Structural)]
pub enum Delivery {
    /// It was queued on the outbound channel of the peer.
    Queued,
    /// The peer has no entry: it disconnected, and nothing was queued anywhere.
    PeerGone,
    /// The peer has an entry, but nobody reads its outbound channel any more.
    ChannelClosed,
}

impl Delivery {
    /// What a send returns for each delivery: a peer that is gone is no error,
    /// since it may have disconnected between the decision to send and the send.
    pub open spec fn spec_result(self) -> Result<(), Error> {
        match self {
            Delivery::Queued => Ok(()),
            Delivery::PeerGone => Ok(()),
            Delivery::ChannelClosed => Err(Error::SendChannelClosed),
        }
    }

    /// What a send returns for this delivery.
    pub fn result(self) -> (result: Result<(), Error>)
        ensures
            result == self.spec_result(),
    {
        match self {
            Delivery::Queued => Ok(()),
            Delivery::PeerGone => Ok(()),
            Delivery::ChannelClosed => Err(Error::SendChannelClosed),
        }
    }
}

/// The connected peers of a transport, each with the sender of its outbound
/// channel. Verus does not see inside: the table is a hash map of the
/// `hashbrown` crate, in which each peer is filed under its key.
#[verifier::external_body]
pub struct PeerTable {
    senders: HashMap<PeerKey, UnboundedSender<Message>>,
}

/// The keys that a table holds an entry for.
pub uninterp spec fn table_keys(table: PeerTable) -> Set<(bool, u128, u16, u32, u32)>;

/// Calls hashbrown's `HashMap::new`: a table without entries.
#[verifier::external_body]
fn table_new() -> (table: PeerTable)
    ensures
        table_keys(table) == Set::<PeerKey>::empty(),
{
    PeerTable { senders: HashMap::new() }
}

/// Calls hashbrown's `HashMap::insert`: afterwards the key has an entry, which
/// holds `sender`, and every other key is as before. Tells whether the key had
/// an entry already, whose sender is then dropped; the table calls it only for
/// a key without an entry.
#[verifier::external_body]
fn table_insert(
    table: &mut PeerTable,
    key: PeerKey,
    sender: UnboundedSender<Message>,
) -> (replaced: bool)
    ensures
        table_keys(*final(table)) == table_keys(*old(table)).insert(key),
        replaced == table_keys(*old(table)).contains(key),
{
    table.senders.insert(key, sender).is_some()
}

/// Calls hashbrown's `HashMap::remove`: afterwards the key has no entry, and
/// every other key is as before. Tells whether the key had an entry, whose
/// sender is then dropped.
#[verifier::external_body]
fn table_remove(table: &mut PeerTable, key: &PeerKey) -> (removed: bool)
    ensures
        table_keys(*final(table)) == table_keys(*old(table)).remove(*key),
        removed == table_keys(*old(table)).contains(*key),
{
    table.senders.remove(key).is_some()
}

/// Calls hashbrown's `HashMap::get`: the sender filed under the key, if the key
/// has an entry.
#[verifier::external_body]
fn table_get<'a>(table: &'a PeerTable, key: &PeerKey) -> (sender: Option<
    &'a UnboundedSender<Message>,
>)
    ensures
        sender is Some == table_keys(*table).contains(*key),
{
    table.senders.get(key)
}

/// Calls hashbrown's `HashMap::clear`: afterwards no key has an entry, and every
/// sender that was held is dropped.
#[verifier::external_body]
fn table_clear(table: &mut PeerTable)
    ensures
        table_keys(*final(table)) == Set::<PeerKey>::empty(),
{
    table.senders.clear()
}

impl PeerTable {
    /// The peers that have an entry.
    pub open spec fn peers(&self) -> Set<PeerAddr> {
        Set::new(|peer: PeerAddr| table_keys(*self).contains(peer.spec_key()))
    }

    /// Whether `peer` has an entry.
    pub open spec fn has(&self, peer: PeerAddr) -> bool {
        self.peers().contains(peer)
    }

    /// A table without peers.
    pub fn new() -> (table: PeerTable)
        ensures
            table.peers() == Set::<PeerAddr>::empty(),
    {
        let table = table_new();
        assert(table.peers() =~= Set::<PeerAddr>::empty());
        table
    }

    /// Files `sender` as the outbound channel of `peer`, when its pair of tasks
    /// is about to start. Tells whether the peer had an entry already. Such an
    /// entry belongs to a pair of tasks that has not reported its end yet: it
    /// stays as it is, for that pair to take out, and `sender` is dropped.
    pub fn register(&mut self, peer: PeerAddr, sender: UnboundedSender<Message>) -> (present: bool)
        ensures
            final(self).peers() == after_event(old(self).peers(), PeerEvent::Connected(peer)),
            present == old(self).has(peer),
            present ==> table_keys(*final(self)) == table_keys(*old(self)),
    {
        let key = peer.key();
        if table_get(self, &key).is_some() {
            assert(self.peers() =~= old(self).peers().insert(peer));
            true
        } else {
            let _ = table_insert(self, key, sender);
            assert(self.peers() =~= old(self).peers().insert(peer));
            false
        }
    }

    /// Takes out the entry of `peer`, when its pair of tasks has ended; the
    /// entry of every other peer stays. Tells whether there was an entry.
    pub fn unregister(&mut self, peer: &PeerAddr) -> (removed: bool)
        ensures
            final(self).peers() == after_event(old(self).peers(), PeerEvent::Disconnected(*peer)),
            removed == old(self).has(*peer),
    {
        let key = peer.key();
        let removed = table_remove(self, &key);
        assert(self.peers() =~= old(self).peers().remove(*peer));
        removed
    }

    /// Drops every peer.
    pub fn clear(&mut self)
        ensures
            final(self).peers() == after_event(old(self).peers(), PeerEvent::Shutdown),
    {
        table_clear(self);
        assert(self.peers() =~= Set::<PeerAddr>::empty());
    }

    /// Whether `peer` has an entry.
    pub fn contains(&self, peer: &PeerAddr) -> (present: bool)
        ensures
            present == self.has(*peer),
    {
        let key = peer.key();
        table_get(self, &key).is_some()
    }

    /// Routes `payload` to `peer`: queues a copy of it on the outbound channel of
    /// that peer, if the peer has an entry. For a peer without an entry nothing
    /// is queued anywhere.
    ///
    /// Whether the channel of a peer that has an entry still takes the payload
    /// is up to the task that reads it.
    pub fn route(&self, payload: &[u8], peer: &PeerAddr) -> (delivery: Delivery)
        ensures
            delivery is PeerGone <==> !self.has(*peer),
    {
        let key = peer.key();
        match table_get(self, &key) {
            Some(sender) => {
                if offer(sender, binary_message(payload)) {
                    Delivery::Queued
                } else {
                    Delivery::ChannelClosed
                }
            },
            None => Delivery::PeerGone,
        }
    }

    /// Sends `payload` to `peer`. A peer without an entry is no error: the send
    /// succeeds and does nothing. The one error is a peer that has an entry
    /// whose channel nobody reads.
    pub fn send(&self, payload: &[u8], peer: &PeerAddr) -> (result: Result<(), Error>)
        ensures
            !self.has(*peer) ==> result is Ok,
            result matches Err(e) ==> e == Error::SendChannelClosed && self.has(*peer),
    {
        self.route(payload, peer).result()
    }

    /// Applies a control message from the owner: a stopped server drops every
    /// peer, a client that asked to disconnect loses its entry. Tells whether the
    /// listener should stop.
    pub fn apply_control(&mut self, event: &ServerNetworkEvent) -> (stop: bool)
        ensures
            final(self).peers() == after_event(old(self).peers(), PeerEvent::of_control(*event)),
            stop == (*event == ServerNetworkEvent::ServerDisconnected),
    {
        match event {
            ServerNetworkEvent::ServerDisconnected => {
                self.clear();
                true
            },
            ServerNetworkEvent::ClientDisconnected(peer) => {
                let _ = self.unregister(peer);
                false
            },
        }
    }
}

/// Peer isolation: events that do not concern a peer leave its entry as it was.
/// Whatever happens to other peers, the entry of `peer` stays until `peer`
/// itself disconnects or the listener shuts down.
pub proof fn lemma_peer_isolation(peers: Set<PeerAddr>, events: Seq<PeerEvent>, peer: PeerAddr)
    requires
        forall|i: int| 0 <= i < events.len() ==> !(#[trigger] events[i]).concerns(peer),
    ensures
        after_events(peers, events).contains(peer) == peers.contains(peer),
    decreases events.len(),
{
    if events.len() > 0 {
        lemma_peer_isolation(peers, events.drop_last(), peer);
        assert(!events[events.len() - 1].concerns(peer));
    }
}

/// Closing one peer does not touch another: when `closed` disconnects, the
/// entry of every other peer is as it was.
pub proof fn lemma_close_leaves_others(peers: Set<PeerAddr>, closed: PeerAddr, other: PeerAddr)
    requires
        closed != other,
    ensures
        after_event(peers, PeerEvent::Disconnected(closed)).contains(other) == peers.contains(
            other,
        ),
{
}

/// Starting with no peers, a peer has an entry exactly when the last event that
/// concerns it is its connection: no stale entries, and none missing.
pub proof fn lemma_entry_iff_connected(events: Seq<PeerEvent>, peer: PeerAddr)
    ensures
        after_events(Set::empty(), events).contains(peer) == connected_last(events, peer),
    decreases events.len(),
{
    if events.len() > 0 {
        lemma_entry_iff_connected(events.drop_last(), peer);
    }
}

/// Removing an entry happens once: after a peer disconnected, disconnecting it
/// again changes nothing.
pub proof fn lemma_disconnect_once(peers: Set<PeerAddr>, peer: PeerAddr)
    ensures
        after_event(
            after_event(peers, PeerEvent::Disconnected(peer)),
            PeerEvent::Disconnected(peer),
        ) == after_event(peers, PeerEvent::Disconnected(peer)),
{
    let once = after_event(peers, PeerEvent::Disconnected(peer));
    assert(after_event(once, PeerEvent::Disconnected(peer)) =~= once);
}

/// std's `Mutex`, carried through as an opaque value.
#[verifier::external_type_specification]
#[verifier::external_body]
#[verifier::reject_recursive_types(T)]
pub struct ExMutex<T: ?Sized>(Mutex<T>);

/// std's `MutexGuard`, carried through as an opaque value.
#[verifier::external_type_specification]
#[verifier::external_body]
#[verifier::reject_recursive_types(T)]
pub struct ExMutexGuard<'a, T: ?Sized + 'a>(MutexGuard<'a, T>);

/// Calls std's `Mutex::new`: a lock around `table`.
#[verifier::external_body]
fn lock_around(table: PeerTable) -> (lock: Mutex<PeerTable>) {
    Mutex::new(table)
}

/// Calls std's `Mutex::lock`, which waits until the lock is free. `None` when
/// the lock is poisoned: a thread panicked while it held the lock. What the
/// table holds under the lock depends on what other threads did: nothing is
/// claimed of it.
///
/// A thread that holds the guard must not acquire the lock again. Every caller
/// here lets go of the guard before it returns, and calls nothing that
/// acquires while it holds one.
#[verifier::external_body]
fn acquire<'a>(lock: &'a Mutex<PeerTable>) -> (guard: Option<MutexGuard<'a, PeerTable>>) {
    lock.lock().ok()
}

/// Calls `Deref::deref` of std's `MutexGuard`: the table under the lock.
#[verifier::external_body]
fn locked<'a, 'b>(guard: &'b MutexGuard<'a, PeerTable>) -> (table: &'b PeerTable) {
    &**guard
}

/// Calls `DerefMut::deref_mut` of std's `MutexGuard`: the table under the lock,
/// to be changed.
#[verifier::external_body]
fn locked_mut<'a, 'b>(guard: &'b mut MutexGuard<'a, PeerTable>) -> (table: &'b mut PeerTable) {
    &mut **guard
}

/// Calls `Clone::clone` of std's `Arc`: one more pointer to the same lock, and
/// so to the same table.
#[verifier::external_body]
fn same_lock(lock: &Arc<Mutex<PeerTable>>) -> (other: Arc<Mutex<PeerTable>>)
    ensures
        other == *lock,
{
    lock.clone()
}

/// The peer table as the sender half and the listener task share it: behind a
/// lock that each operation takes for itself and gives back before it returns.
///
/// Other holders change the table between any two operations, so an operation
/// promises nothing of what the table holds afterwards; what it does to the
/// table while it holds the lock is what the operation of the same name on
/// [`PeerTable`] states. The one error is a poisoned lock.
pub struct ClientBoundTxMap {
    table: Arc<Mutex<PeerTable>>,
}

impl Clone for ClientBoundTxMap {
    /// One more holder of the same table.
    fn clone(&self) -> (other: ClientBoundTxMap)
        ensures
            other == *self,
    {
        ClientBoundTxMap { table: same_lock(&self.table) }
    }
}

impl ClientBoundTxMap {
    /// A shared table without peers.
    pub fn new() -> (map: ClientBoundTxMap) {
        ClientBoundTxMap { table: Arc::new(lock_around(PeerTable::new())) }
    }

    /// Files `sender` as the outbound channel of `peer`, unless the peer has
    /// an entry already; see [`PeerTable::register`].
    pub fn register(&self, peer: PeerAddr, sender: UnboundedSender<Message>) -> (present: Result<
        bool,
        Error,
    >)
        ensures
            present matches Err(e) ==> e == Error::Poisoned,
    {
        match acquire(&self.table) {
            Some(mut guard) => Ok(locked_mut(&mut guard).register(peer, sender)),
            None => Err(Error::Poisoned),
        }
    }

    /// Takes out the entry of `peer`; see [`PeerTable::unregister`].
    pub fn unregister(&self, peer: &PeerAddr) -> (removed: Result<bool, Error>)
        ensures
            removed matches Err(e) ==> e == Error::Poisoned,
    {
        match acquire(&self.table) {
            Some(mut guard) => Ok(locked_mut(&mut guard).unregister(peer)),
            None => Err(Error::Poisoned),
        }
    }

    /// Whether `peer` had an entry when the lock was held; see
    /// [`PeerTable::contains`].
    pub fn contains(&self, peer: &PeerAddr) -> (present: Result<bool, Error>)
        ensures
            present matches Err(e) ==> e == Error::Poisoned,
    {
        match acquire(&self.table) {
            Some(guard) => Ok(locked(&guard).contains(peer)),
            None => Err(Error::Poisoned),
        }
    }

    /// Routes `payload` to `peer`; see [`PeerTable::route`]. The lock is held
    /// for the lookup and the enqueue, which never waits.
    pub fn route(&self, payload: &[u8], peer: &PeerAddr) -> (delivery: Result<Delivery, Error>)
        ensures
            delivery matches Err(e) ==> e == Error::Poisoned,
    {
        match acquire(&self.table) {
            Some(guard) => Ok(locked(&guard).route(payload, peer)),
            None => Err(Error::Poisoned),
        }
    }

    /// Applies a control message from the owner, and tells whether the listener
    /// should stop; see [`PeerTable::apply_control`].
    pub fn apply_control(&self, event: &ServerNetworkEvent) -> (stop: Result<bool, Error>)
        ensures
            stop matches Ok(s) ==> s == (*event == ServerNetworkEvent::ServerDisconnected),
            stop matches Err(e) ==> e == Error::Poisoned,
    {
        match acquire(&self.table) {
            Some(mut guard) => Ok(locked_mut(&mut guard).apply_control(event)),
            None => Err(Error::Poisoned),
        }
    }
}

} // verus!
