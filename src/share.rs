//! Shared/peek adapter: the state that the holders of a shared transporter
//! drive in turn, with a one-item lookahead.
use vstd::prelude::*;

verus! {

/// The state behind a shared transporter: the transporter itself and at most
/// one received item held for inspection without being consumed.
#[derive(Debug)]
pub struct RcTransporter<T, P, R> {
    transporter: T,
    peek_recv: Option<(P, R)>,
}

/// What a peek observes and the lookahead slot after it: a held item stays
/// held and is observed again; an empty slot takes whatever the inner
/// transporter delivered, if anything.
pub open spec fn peek_step<P, R>(slot: Option<(P, R)>, delivered: Option<(P, R)>) -> Option<(P, R)> {
    if slot is Some {
        slot
    } else {
        delivered
    }
}

/// What a consuming receive returns from the lookahead slot, and the slot
/// after it: the held item, if any, and an empty slot. Where nothing was held
/// the receive goes on to the inner transporter.
pub open spec fn consume_step<P, R>(slot: Option<(P, R)>) -> (Option<(P, R)>, Option<(P, R)>) {
    (slot, None)
}

/// Two peeks with no consuming receive between them observe the same item,
/// whatever the inner transporter would deliver for the second, and the next
/// consuming receive returns exactly that item.
pub proof fn lemma_peek_is_stable<P, R>(
    slot: Option<(P, R)>,
    first: Option<(P, R)>,
    second: Option<(P, R)>,
)
    requires
        peek_step(slot, first) is Some,
    ensures
        peek_step(peek_step(slot, first), second) == peek_step(slot, first),
        consume_step(peek_step(peek_step(slot, first), second)).0 == peek_step(slot, first),
{
}

impl<T, P, R> RcTransporter<T, P, R> {
    /// The shared transporter.
    pub closed spec fn spec_transporter(&self) -> T {
        self.transporter
    }

    /// The item held for inspection, if any.
    pub closed spec fn spec_peeked(&self) -> Option<(P, R)> {
        self.peek_recv
    }

    /// Makes a new instance around `inner`, with nothing held.
    pub fn new(inner: T) -> (r: Self)
        ensures
            r.spec_transporter() == inner,
            r.spec_peeked() is None,
    {
        RcTransporter { transporter: inner, peek_recv: None }
    }

    /// Executes `f` with a reference to the inner transporter.
    pub fn with_inner_ref<F, U>(&self, f: F) -> (r: U)
        where
            F: FnOnce(&T) -> U,
        requires
            f.requires((&self.spec_transporter(),)),
        ensures
            f.ensures((&self.spec_transporter(),), r),
    {
        f(&self.transporter)
    }

    /// Executes `f` with a mutable reference to the inner transporter; the
    /// held item stays as it is.
    pub fn with_inner_mut<F, U>(&mut self, f: F) -> (r: U)
        where
            F: FnOnce(&mut T) -> U,
        requires
            forall|t: &mut T| f.requires((t,)),
        ensures
            final(self).spec_peeked() == old(self).spec_peeked(),
    {
        f(&mut self.transporter)
    }

    /// Whether a peek must first receive from the inner transporter: exactly
    /// when nothing is held.
    pub fn needs_recv_for_peek(&self) -> (r: bool)
        ensures
            r == self.spec_peeked() is None,
    {
        self.peek_recv.is_none()
    }

    /// Completes a peek: holds what the inner transporter delivered, where
    /// nothing was held, and executes `f` with the held item, which stays
    /// held. Where nothing is held, `f` is not executed and the result is `None`.
    pub fn with_peek_recv<F, U>(&mut self, delivered: Option<(P, R)>, f: F) -> (r: Option<U>)
        where
            F: FnOnce(&P, &R) -> U,
        requires
            forall|p: &P, x: &R| f.requires((p, x)),
        ensures
            final(self).spec_peeked() == peek_step(old(self).spec_peeked(), delivered),
            final(self).spec_transporter() == old(self).spec_transporter(),
            match final(self).spec_peeked() {
                Some(held) => r matches Some(u) && f.ensures((&held.0, &held.1), u),
                None => r is None,
            },
    {
        if self.peek_recv.is_none() {
            self.peek_recv = delivered;
        }
        match &self.peek_recv {
            Some(held) => Some(f(&held.0, &held.1)),
            None => None,
        }
    }

    /// Starts a consuming receive: takes the held item out, if there is one.
    /// Where nothing was held the driver receives from the inner transporter.
    pub fn take_peeked(&mut self) -> (r: Option<(P, R)>)
        ensures
            (r, final(self).spec_peeked()) == consume_step(old(self).spec_peeked()),
            final(self).spec_transporter() == old(self).spec_transporter(),
    {
        self.peek_recv.take()
    }
}

} // verus!
