//! Peer identities.
use vstd::prelude::*;

verus! {

/// Peer address: a value that identifies one end of a conversation.
///
/// Implementations compare and duplicate exactly: `same_peer` is equality of
/// the values and `duplicate` returns an equal value.
pub trait PeerAddr: Eq + core::hash::Hash + core::fmt::Debug + Sized {
    /// Whether `self` and `other` name the same peer.
    fn same_peer(&self, other: &Self) -> (r: bool)
        ensures
            r == (*self == *other),
    ;

    /// Returns a copy of this address.
    fn duplicate(&self) -> (r: Self)
        ensures
            r == *self,
    ;
}

/// The single implicit peer of a connection.
impl PeerAddr for () {
    fn same_peer(&self, other: &Self) -> (r: bool) {
        true
    }

    fn duplicate(&self) -> (r: Self) {
        ()
    }
}

/// An IP address, as the numbers that make it up.
#[derive(Debug, Clone, Copy, PartialEq, Eq, Structural, Hash)]
pub enum IpAddress {
    /// An IPv4 address, its four octets in big-endian order.
    V4(u32),
    /// An IPv6 address, its sixteen octets in big-endian order, with its flow
    /// information and scope identifier.
    V6 { octets: u128, flowinfo: u32, scope_id: u32 },
}

/// A network endpoint: an IP address and a port.
#[derive(Debug, Clone, Copy, PartialEq, Eq, Structural, Hash)]
pub struct SocketAddress {
    /// The IP address.
    pub ip: IpAddress,
    /// The port number.
    pub port: u16,
}

impl SocketAddress {
    /// Makes a new address from an IP address and a port.
    pub fn new(ip: IpAddress, port: u16) -> (r: SocketAddress)
        ensures
            r.ip == ip,
            r.port == port,
    {
        SocketAddress { ip, port }
    }
}

/// One of many peers reached through one socket.
impl PeerAddr for SocketAddress {
    fn same_peer(&self, other: &Self) -> (r: bool) {
        *self == *other
    }

    fn duplicate(&self) -> (r: Self) {
        *self
    }
}

} // verus!
