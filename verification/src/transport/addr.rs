//! Peer addresses.
use vstd::prelude::*;

verus! {

/// The integers under which a peer is filed in a map: whether the address is an
/// IPv4 address, the address, the port, the flow information and the scope.
pub type PeerKey = (bool, u128, u16, u32, u32);

/// Identifies a remote endpoint: an IP address and a port, in one of the two
/// forms that a socket address has.
///
/// Two peers are the same peer exactly when they are of the same form and all
/// their fields agree: an IPv4 address and its IPv4-mapped IPv6 form are two
/// peers, as are two IPv6 addresses that differ in scope or flow only.
#[derive(Clone, Copy, Debug, PartialEq, Eq, Hash, Structural)]
pub enum PeerAddr {
    /// An IPv4 address, as its 32 bits, and a port.
    V4 { ip: u32, port: u16 },
    /// An IPv6 address, as its 128 bits, a port, the flow information and the
    /// scope.
    V6 { ip: u128, port: u16, flowinfo: u32, scope_id: u32 },
}

impl PeerAddr {
    /// The integers under which a peer is filed in a map. Distinct peers have
    /// distinct keys.
    pub open spec fn spec_key(self) -> PeerKey {
        match self {
            PeerAddr::V4 { ip, port } => (true, ip as u128, port, 0u32, 0u32),
            PeerAddr::V6 { ip, port, flowinfo, scope_id } => (false, ip, port, flowinfo, scope_id),
        }
    }

    /// The port of the peer.
    pub open spec fn spec_port(self) -> u16 {
        match self {
            PeerAddr::V4 { port, .. } => port,
            PeerAddr::V6 { port, .. } => port,
        }
    }

    /// The IPv6 peer at `ip` and `port`, without flow information or scope.
    pub fn new(ip: u128, port: u16) -> (addr: PeerAddr)
        ensures
            addr == (PeerAddr::V6 { ip, port, flowinfo: 0, scope_id: 0 }),
    {
        PeerAddr::V6 { ip, port, flowinfo: 0, scope_id: 0 }
    }

    /// The IPv4 peer at `ip` and `port`.
    pub fn v4(ip: u32, port: u16) -> (addr: PeerAddr)
        ensures
            addr == (PeerAddr::V4 { ip, port }),
    {
        PeerAddr::V4 { ip, port }
    }

    /// The IPv6 peer at `ip` and `port`, with its flow information and scope.
    pub fn v6(ip: u128, port: u16, flowinfo: u32, scope_id: u32) -> (addr: PeerAddr)
        ensures
            addr == (PeerAddr::V6 { ip, port, flowinfo, scope_id }),
    {
        PeerAddr::V6 { ip, port, flowinfo, scope_id }
    }

    /// The port of the peer.
    pub fn port(&self) -> (port: u16)
        ensures
            port == self.spec_port(),
    {
        match self {
            PeerAddr::V4 { port, .. } => *port,
            PeerAddr::V6 { port, .. } => *port,
        }
    }

    /// The integers under which this peer is filed in a map.
    pub fn key(&self) -> (k: PeerKey)
        ensures
            k == self.spec_key(),
    {
        match self {
            PeerAddr::V4 { ip, port } => (true, *ip as u128, *port, 0u32, 0u32),
            PeerAddr::V6 { ip, port, flowinfo, scope_id } => (
                false,
                *ip,
                *port,
                *flowinfo,
                *scope_id,
            ),
        }
    }
}

} // verus!
