//! Fixed-peer adapter: one peer identity shown outside, one used inside.
use crate::error::{Error, ErrorKind};
use crate::peer_addr::{PeerAddr, SocketAddress};
use crate::udp::UdpTransport;
use vstd::prelude::*;

verus! {

/// A transporter used for communicating with a fixed peer: `exterior_peer`
/// is the only identity its users see and `interior_peer` the one that the
/// inner transporter uses.
#[derive(Debug)]
pub struct FixedPeerTransporter<T, P, Q> {
    exterior_peer: P,
    interior_peer: Q,
    inner: T,
}

impl<T, P, Q> FixedPeerTransporter<T, P, Q> {
    /// The peer identity exposed to users of the transporter.
    pub closed spec fn spec_exterior_peer(&self) -> P {
        self.exterior_peer
    }

    /// The peer identity used by the inner transporter.
    pub closed spec fn spec_interior_peer(&self) -> Q {
        self.interior_peer
    }

    /// The inner transporter.
    pub closed spec fn spec_inner(&self) -> T {
        self.inner
    }

    /// Makes a new `FixedPeerTransporter` instance.
    pub fn new(exterior_peer: P, interior_peer: Q, inner: T) -> (r: Self)
        ensures
            r.spec_exterior_peer() == exterior_peer,
            r.spec_interior_peer() == interior_peer,
            r.spec_inner() == inner,
    {
        FixedPeerTransporter { exterior_peer, interior_peer, inner }
    }

    /// Returns a reference to the inner transporter.
    pub fn inner_ref(&self) -> (r: &T)
        ensures
            *r == self.spec_inner(),
    {
        &self.inner
    }

    /// Returns a mutable reference to the inner transporter. The pair of
    /// peers stays as it is.
    pub fn inner_mut(&mut self) -> (r: &mut T)
        ensures
            *r == old(self).spec_inner(),
            final(self).spec_inner() == *final(r),
            final(self).spec_exterior_peer() == old(self).spec_exterior_peer(),
            final(self).spec_interior_peer() == old(self).spec_interior_peer(),
    {
        &mut self.inner
    }

    /// Returns a reference to the fixed peer address exposed to users of the
    /// transporter.
    pub fn exterior_peer(&self) -> (r: &P)
        ensures
            *r == self.spec_exterior_peer(),
    {
        &self.exterior_peer
    }

    /// Returns a reference to the fixed peer address used internally in the
    /// transporter.
    pub fn interior_peer(&self) -> (r: &Q)
        ensures
            *r == self.spec_interior_peer(),
    {
        &self.interior_peer
    }
}

impl<T, P: PeerAddr, Q: PeerAddr> FixedPeerTransporter<T, P, Q> {
    /// The destination to hand to the inner transporter when an item is sent
    /// to `peer`: the interior peer where `peer` is the exterior one, and an
    /// `InvalidInput` error, with nothing handed on, for any other peer.
    pub fn destination(&self, peer: &P) -> (r: crate::Result<Q>)
        ensures
            *peer == self.spec_exterior_peer() ==> r == Ok::<Q, Error>(self.spec_interior_peer()),
            *peer != self.spec_exterior_peer() ==> r is Err && r->Err_0.spec_kind()
                == ErrorKind::InvalidInput,
    {
        if peer.same_peer(&self.exterior_peer) {
            Ok(self.interior_peer.duplicate())
        } else {
            Err(Error::new(ErrorKind::InvalidInput, "Unexpected destination peer".to_string()))
        }
    }

    /// What the users see of an item that the inner transporter received from
    /// `peer`: the item tagged with the exterior peer where `peer` is the
    /// interior one, and nothing otherwise (the item is discarded).
    pub fn retag_received<R>(&self, peer: &Q, item: R) -> (r: Option<(P, R)>)
        ensures
            *peer == self.spec_interior_peer() ==> r == Some((self.spec_exterior_peer(), item)),
            *peer != self.spec_interior_peer() ==> r is None,
    {
        if peer.same_peer(&self.interior_peer) {
            Some((self.exterior_peer.duplicate(), item))
        } else {
            None
        }
    }
}

/// A datagram transporter pinned to one peer is bound where its inner
/// transporter is.
impl<T: UdpTransport, Q> UdpTransport for FixedPeerTransporter<T, SocketAddress, Q> {
    fn local_addr(&self) -> SocketAddress {
        self.inner.local_addr()
    }
}

} // verus!
