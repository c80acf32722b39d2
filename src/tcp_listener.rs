//! Connection multiplexer: accepted connections wait in a pending set until
//! their handshake completes, then each becomes a stream transporter with
//! codecs of its own.
use crate::peer_addr::SocketAddress;
use vstd::prelude::*;

verus! {

broadcast use {vstd::seq_lib::group_to_multiset_ensures, vstd::multiset::group_multiset_axioms};

/// [`TcpListener`] builder.
#[derive(Debug)]
pub struct TcpListenerBuilder<E, D> {
    encoder_factory: E,
    decoder_factory: D,
}

impl<E: Default, D: Default> TcpListenerBuilder<E, D> {
    /// Makes a new builder with default codec factories.
    pub fn new() -> (r: Self) {
        Self::with_codec(E::default(), D::default())
    }
}

impl<E: Default, D: Default> Default for TcpListenerBuilder<E, D> {
    fn default() -> (r: Self) {
        Self::new()
    }
}

impl<E, D> TcpListenerBuilder<E, D> {
    /// The factory of the encoders of accepted connections.
    pub closed spec fn spec_encoder_factory(&self) -> E {
        self.encoder_factory
    }

    /// The factory of the decoders of accepted connections.
    pub closed spec fn spec_decoder_factory(&self) -> D {
        self.decoder_factory
    }

    /// Makes a new builder with the given encoder and decoder factories.
    pub fn with_codec(encoder_factory: E, decoder_factory: D) -> (r: Self)
        ensures
            r.spec_encoder_factory() == encoder_factory,
            r.spec_decoder_factory() == decoder_factory,
    {
        TcpListenerBuilder { encoder_factory, decoder_factory }
    }

    /// Builds a listener that listens on `local_addr`, with no pending
    /// connection.
    pub fn finish<C>(self, local_addr: SocketAddress) -> (r: TcpListener<E, D, C>)
        ensures
            r@ == Seq::<C>::empty(),
            r.spec_local_addr() == local_addr,
            r.spec_encoder_factory() == self.spec_encoder_factory(),
            r.spec_decoder_factory() == self.spec_decoder_factory(),
    {
        TcpListener {
            local_addr,
            encoder_factory: self.encoder_factory,
            decoder_factory: self.decoder_factory,
            client_futures: Vec::new(),
        }
    }
}

/// The pending set after the connection at `i` completed: the last entry
/// takes its place, so the relative order of the others is not kept.
pub open spec fn without_pending<C>(s: Seq<C>, i: int) -> Seq<C> {
    s.update(i, s.last()).drop_last()
}

/// A completed connection leaves the pending set once, and nothing else
/// leaves or arrives: the entries left, together with the one taken, are
/// exactly the entries before.
pub proof fn lemma_completion_takes_one<C>(s: Seq<C>, i: int)
    requires
        0 <= i < s.len(),
    ensures
        without_pending(s, i).len() == s.len() - 1,
        without_pending(s, i).to_multiset().insert(s[i]) == s.to_multiset(),
{
    let u = s.update(i, s.last());
    let rest = without_pending(s, i);
    assert(u.len() == s.len());
    vstd::seq_lib::to_multiset_update(s, i, s.last());
    assert(u =~= rest.push(s.last()));
    vstd::seq_lib::to_multiset_build(rest, s.last());
    assert(s.to_multiset().count(s[i]) > 0);
    assert forall|x: C| #[trigger] rest.to_multiset().insert(s[i]).count(x) == s.to_multiset().count(
        x,
    ) by {
        assert(u.to_multiset().count(x) == rest.to_multiset().insert(s.last()).count(x));
        assert(u.to_multiset().count(x) == s.to_multiset().insert(s.last()).remove(s[i]).count(
            x,
        ));
    }
    assert(rest.to_multiset().insert(s[i]) =~= s.to_multiset());
}

/// The state of a listener: its address, its codec factories and the
/// accepted connections whose handshake has not completed yet. The accept
/// source is driven beside it.
#[derive(Debug)]
pub struct TcpListener<E, D, C> {
    local_addr: SocketAddress,
    encoder_factory: E,
    decoder_factory: D,
    client_futures: Vec<C>,
}

impl<E, D, C> View for TcpListener<E, D, C> {
    type V = Seq<C>;

    /// The pending connections.
    closed spec fn view(&self) -> Seq<C> {
        self.client_futures@
    }
}

impl<E, D, C> TcpListener<E, D, C> {
    /// The address on which the listener is listening.
    pub closed spec fn spec_local_addr(&self) -> SocketAddress {
        self.local_addr
    }

    /// The factory of the encoders of accepted connections.
    pub closed spec fn spec_encoder_factory(&self) -> E {
        self.encoder_factory
    }

    /// The factory of the decoders of accepted connections.
    pub closed spec fn spec_decoder_factory(&self) -> D {
        self.decoder_factory
    }

    /// Returns the address on which the listener is listening.
    pub fn local_addr(&self) -> (r: SocketAddress)
        ensures
            r == self.spec_local_addr(),
    {
        self.local_addr
    }

    /// Adds a raw accepted connection to the pending set.
    pub fn add_pending(&mut self, client: C)
        ensures
            final(self)@ == old(self)@.push(client),
            final(self).spec_local_addr() == old(self).spec_local_addr(),
            final(self).spec_encoder_factory() == old(self).spec_encoder_factory(),
            final(self).spec_decoder_factory() == old(self).spec_decoder_factory(),
    {
        self.client_futures.push(client);
    }

    /// Returns the number of pending connections.
    pub fn pending_len(&self) -> (r: usize)
        ensures
            r == self@.len(),
    {
        self.client_futures.len()
    }

    /// Returns a mutable reference to the pending connection at `i`, for the
    /// driver to advance its handshake.
    pub fn pending_mut(&mut self, i: usize) -> (r: &mut C)
        requires
            i < old(self)@.len(),
        ensures
            *r == old(self)@[i as int],
            final(self)@ == old(self)@.update(i as int, *final(r)),
            final(self).spec_local_addr() == old(self).spec_local_addr(),
            final(self).spec_encoder_factory() == old(self).spec_encoder_factory(),
            final(self).spec_decoder_factory() == old(self).spec_decoder_factory(),
    {
        &mut self.client_futures[i]
    }

    /// Takes the pending connection at `i`, whose handshake completed, out of
    /// the pending set.
    pub fn complete_pending(&mut self, i: usize) -> (r: C)
        requires
            i < old(self)@.len(),
        ensures
            r == old(self)@[i as int],
            final(self)@ == without_pending(old(self)@, i as int),
            final(self).spec_local_addr() == old(self).spec_local_addr(),
            final(self).spec_encoder_factory() == old(self).spec_encoder_factory(),
            final(self).spec_decoder_factory() == old(self).spec_decoder_factory(),
    {
        self.client_futures.swap_remove(i)
    }

    /// Returns a mutable reference to the encoder factory, which makes one
    /// encoder for each accepted connection.
    pub fn encoder_factory_mut(&mut self) -> (r: &mut E)
        ensures
            *r == old(self).spec_encoder_factory(),
            final(self).spec_encoder_factory() == *final(r),
            final(self)@ == old(self)@,
            final(self).spec_local_addr() == old(self).spec_local_addr(),
            final(self).spec_decoder_factory() == old(self).spec_decoder_factory(),
    {
        &mut self.encoder_factory
    }

    /// Returns a mutable reference to the decoder factory, which makes one
    /// decoder for each accepted connection.
    pub fn decoder_factory_mut(&mut self) -> (r: &mut D)
        ensures
            *r == old(self).spec_decoder_factory(),
            final(self).spec_decoder_factory() == *final(r),
            final(self)@ == old(self)@,
            final(self).spec_local_addr() == old(self).spec_local_addr(),
            final(self).spec_encoder_factory() == old(self).spec_encoder_factory(),
    {
        &mut self.decoder_factory
    }
}

} // verus!
