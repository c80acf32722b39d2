//! Datagram transporter: one socket, many peers, one datagram per item.
use crate::error::{Error, ErrorKind};
use crate::peer_addr::SocketAddress;
use std::collections::VecDeque;
use vstd::prelude::*;

verus! {

/// Default size in bytes of the receive buffer of a datagram transporter.
pub const DEFAULT_UDP_BUF_SIZE: usize = 4096;

/// This trait indicates that the implementation carries items in datagrams.
pub trait UdpTransport {
    /// Returns the address to which the instance is bound.
    fn local_addr(&self) -> SocketAddress;
}

/// [`UdpTransporter`] builder.
#[derive(Debug, Clone)]
pub struct UdpTransporterBuilder<E, D> {
    buf_size: usize,
    encoder: E,
    decoder: D,
}

impl<E: Default, D: Default> UdpTransporterBuilder<E, D> {
    /// Makes a new builder with the default settings and default codecs.
    pub fn new() -> (r: Self)
        ensures
            r.spec_buf_size() == DEFAULT_UDP_BUF_SIZE,
    {
        Self::with_codec(E::default(), D::default())
    }
}

impl<E: Default, D: Default> Default for UdpTransporterBuilder<E, D> {
    fn default() -> (r: Self)
        ensures
            r.spec_buf_size() == DEFAULT_UDP_BUF_SIZE,
    {
        Self::new()
    }
}

impl<E, D> UdpTransporterBuilder<E, D> {
    /// The size of the receive buffer of the resulting transporter.
    pub closed spec fn spec_buf_size(&self) -> usize {
        self.buf_size
    }

    /// The encoder of the resulting transporter.
    pub closed spec fn spec_encoder(&self) -> E {
        self.encoder
    }

    /// The decoder of the resulting transporter.
    pub closed spec fn spec_decoder(&self) -> D {
        self.decoder
    }

    /// Makes a new builder with the given encoder and decoder.
    pub fn with_codec(encoder: E, decoder: D) -> (r: Self)
        ensures
            r.spec_buf_size() == DEFAULT_UDP_BUF_SIZE,
            r.spec_encoder() == encoder,
            r.spec_decoder() == decoder,
    {
        UdpTransporterBuilder { buf_size: DEFAULT_UDP_BUF_SIZE, encoder, decoder }
    }

    /// Sets the size of the receive buffer of the resulting instance in bytes.
    pub fn buf_size(self, size: usize) -> (r: Self)
        ensures
            r.spec_buf_size() == size,
            r.spec_encoder() == self.spec_encoder(),
            r.spec_decoder() == self.spec_decoder(),
    {
        let mut this = self;
        this.buf_size = size;
        this
    }

    /// Builds a transporter for a socket bound to `local_addr`, with an
    /// empty outgoing queue.
    pub fn finish<S>(self, local_addr: SocketAddress) -> (r: UdpTransporter<E, D, S>)
        ensures
            r@ == Seq::<(SocketAddress, S)>::empty(),
            r.spec_buf_size() == self.spec_buf_size(),
            r.spec_local_addr() == local_addr,
            r.spec_encoder() == self.spec_encoder(),
            r.spec_decoder() == self.spec_decoder(),
    {
        UdpTransporter {
            buf_size: self.buf_size,
            local_addr,
            encoder: self.encoder,
            decoder: self.decoder,
            outgoing_queue: VecDeque::new(),
        }
    }
}

/// The state of the single send slot of a datagram transporter, as its driver
/// observed it.
#[derive(Debug, Clone, Copy, PartialEq, Eq, Structural)]
pub enum SendSlot {
    /// No send is in progress.
    Idle,
    /// A send is in progress and has not completed.
    InFlight,
    /// The send in progress completed: the datagram was `len` bytes long and
    /// the operating system accepted `written` of them.
    Completed { len: usize, written: usize },
}

/// The decision of one send step of a datagram transporter.
pub enum DatagramSendStep<S> {
    /// Encode the item into one datagram and start sending it to the peer.
    Send(SocketAddress, S),
    /// Every queued item has been sent.
    Ready,
    /// Wait until the send in progress completes, then poll again.
    Pending,
}

/// One send step as a function of the queue and the slot: the new queue and
/// the decision, or `None` where the completed send was short.
///
/// At most one datagram is in flight: while one is, nothing else starts. A
/// datagram that the operating system did not take whole is a failure, and
/// nothing else starts after it. Otherwise the oldest queued item goes out.
pub open spec fn datagram_send_step<S>(q: Seq<(SocketAddress, S)>, slot: SendSlot) -> Option<
    (Seq<(SocketAddress, S)>, DatagramSendStep<S>),
> {
    match slot {
        SendSlot::InFlight => Some((q, DatagramSendStep::Pending)),
        SendSlot::Completed { len, written } if len != written => None,
        _ => if q.len() > 0 {
            Some((q.drop_first(), DatagramSendStep::Send(q[0].0, q[0].1)))
        } else {
            Some((q, DatagramSendStep::Ready))
        },
    }
}

/// An operation on the sending side of a datagram transporter: a destination
/// and item given to `start_send`, or one send step with the observed slot.
pub enum DatagramSendOp<S> {
    Enqueue(SocketAddress, S),
    Step(SendSlot),
}

/// The pairs of destination and item given to `start_send` in `ops`, in order.
pub open spec fn enqueued_datagrams<S>(ops: Seq<DatagramSendOp<S>>) -> Seq<(SocketAddress, S)>
    decreases ops.len(),
{
    if ops.len() == 0 {
        Seq::empty()
    } else {
        let before = enqueued_datagrams(ops.drop_last());
        match ops.last() {
            DatagramSendOp::Enqueue(peer, x) => before.push((peer, x)),
            DatagramSendOp::Step(_) => before,
        }
    }
}

/// The queue after performing `ops` from `q`, and the datagrams started on
/// the way, in order, each as its destination and item. A step that fails
/// leaves the queue as it was.
pub open spec fn run_datagram_send<S>(q: Seq<(SocketAddress, S)>, ops: Seq<DatagramSendOp<S>>) -> (
    Seq<(SocketAddress, S)>,
    Seq<(SocketAddress, S)>,
)
    decreases ops.len(),
{
    if ops.len() == 0 {
        (q, Seq::empty())
    } else {
        let (prev, sent) = run_datagram_send(q, ops.drop_last());
        match ops.last() {
            DatagramSendOp::Enqueue(peer, x) => (prev.push((peer, x)), sent),
            DatagramSendOp::Step(slot) => match datagram_send_step(prev, slot) {
                Some((next, DatagramSendStep::Send(peer, x))) => (next, sent.push((peer, x))),
                Some((next, _)) => (next, sent),
                None => (prev, sent),
            },
        }
    }
}

/// Whatever the slot reports, a datagram transporter sends each item to the
/// peer it was given for, in the order of `start_send`, each once: the
/// datagrams started, followed by those still queued, are the pairs queued at
/// the start followed by those given since.
pub proof fn lemma_datagrams_keep_destination_and_order<S>(
    q: Seq<(SocketAddress, S)>,
    ops: Seq<DatagramSendOp<S>>,
)
    ensures
        run_datagram_send(q, ops).1 + run_datagram_send(q, ops).0 == q + enqueued_datagrams(ops),
    decreases ops.len(),
{
    if ops.len() > 0 {
        lemma_datagrams_keep_destination_and_order(q, ops.drop_last());
        let (prev, sent) = run_datagram_send(q, ops.drop_last());
        match ops.last() {
            DatagramSendOp::Enqueue(peer, x) => {
                assert(sent + prev.push((peer, x)) =~= (sent + prev).push((peer, x)));
                assert(q + enqueued_datagrams(ops.drop_last()).push((peer, x)) =~= (q
                    + enqueued_datagrams(ops.drop_last())).push((peer, x)));
            },
            DatagramSendOp::Step(slot) => {
                if prev.len() > 0 {
                    assert(sent.push((prev[0].0, prev[0].1)) + prev.drop_first() =~= sent + prev);
                }
            },
        }
    }
}

/// The bytes of a received datagram: the first `size` bytes of the buffer.
pub fn datagram_payload(buf: &[u8], size: usize) -> (r: &[u8])
    requires
        size <= buf@.len(),
    ensures
        r@ == buf@.subrange(0, size as int),
{
    vstd::slice::slice_subrange(buf, 0, size)
}

/// The state of a datagram transporter: its codec and its outgoing queue of
/// destination and item. The socket itself is driven beside it.
#[derive(Debug)]
pub struct UdpTransporter<E, D, S> {
    buf_size: usize,
    local_addr: SocketAddress,
    encoder: E,
    decoder: D,
    outgoing_queue: VecDeque<(SocketAddress, S)>,
}

impl<E, D, S> View for UdpTransporter<E, D, S> {
    type V = Seq<(SocketAddress, S)>;

    /// The outgoing queue, oldest first.
    closed spec fn view(&self) -> Seq<(SocketAddress, S)> {
        self.outgoing_queue@
    }
}

impl<E, D, S> UdpTransporter<E, D, S> {
    /// The size of the receive buffer.
    pub closed spec fn spec_buf_size(&self) -> usize {
        self.buf_size
    }

    /// The address to which the instance is bound.
    pub closed spec fn spec_local_addr(&self) -> SocketAddress {
        self.local_addr
    }

    /// The encoder.
    pub closed spec fn spec_encoder(&self) -> E {
        self.encoder
    }

    /// The decoder.
    pub closed spec fn spec_decoder(&self) -> D {
        self.decoder
    }

    /// Everything but the outgoing queue is the same in `self` and `other`.
    pub open spec fn same_socket(&self, other: &Self) -> bool {
        &&& self.spec_buf_size() == other.spec_buf_size()
        &&& self.spec_local_addr() == other.spec_local_addr()
        &&& self.spec_encoder() == other.spec_encoder()
        &&& self.spec_decoder() == other.spec_decoder()
    }

    /// Starts sending `item` to `peer`: the pair joins the end of the
    /// outgoing queue. The driver then polls sending.
    pub fn start_send(&mut self, peer: SocketAddress, item: S)
        ensures
            final(self)@ == old(self)@.push((peer, item)),
            final(self).same_socket(old(self)),
    {
        self.outgoing_queue.push_back((peer, item));
    }

    /// Decides one step of the send loop from the state of the send slot.
    ///
    /// On `Send` the driver encodes the item into one buffer and starts one
    /// send of it to the peer; on `Ready` and `Pending` it returns.
    pub fn send_step(&mut self, slot: SendSlot) -> (r: crate::Result<DatagramSendStep<S>>)
        ensures
            final(self).same_socket(old(self)),
            match datagram_send_step(old(self)@, slot) {
                None => r is Err && r->Err_0.spec_kind() == ErrorKind::Other && final(self)@
                    == old(self)@,
                Some((q, step)) => r == Ok::<DatagramSendStep<S>, Error>(step) && final(self)@
                    == q,
            },
    {
        match slot {
            SendSlot::InFlight => {
                return Ok(DatagramSendStep::Pending);
            },
            SendSlot::Completed { len, written } => {
                if len != written {
                    return Err(
                        Error::new(
                            ErrorKind::Other,
                            "a datagram was sent only in part".to_string(),
                        ),
                    );
                }
            },
            SendSlot::Idle => {},
        }
        match self.outgoing_queue.pop_front() {
            Some((peer, item)) => Ok(DatagramSendStep::Send(peer, item)),
            None => Ok(DatagramSendStep::Ready),
        }
    }

    /// Returns the number of unsent messages in the queue of the instance.
    ///
    /// An item leaves the queue when it is encoded whole into its datagram.
    pub fn message_queue_len(&self) -> (r: usize)
        ensures
            r == self@.len(),
    {
        self.outgoing_queue.len()
    }

    /// Returns a zeroed receive buffer of the configured size, for the
    /// receive operation that the driver keeps pending.
    pub fn new_recv_buffer(&self) -> (r: Vec<u8>)
        ensures
            r@ == Seq::new(self.spec_buf_size() as nat, |_i: int| 0u8),
    {
        let n = self.buf_size;
        let mut buf: Vec<u8> = Vec::with_capacity(n);
        let mut i: usize = 0;
        while i < n
            invariant
                i <= n,
                buf@ == Seq::new(i as nat, |_j: int| 0u8),
            decreases n - i,
        {
            buf.push(0u8);
            i = i + 1;
            assert(buf@ =~= Seq::new(i as nat, |_j: int| 0u8));
        }
        buf
    }

    /// Returns the address to which the instance is bound.
    pub fn local_addr(&self) -> (r: SocketAddress)
        ensures
            r == self.spec_local_addr(),
    {
        self.local_addr
    }

    /// Returns the size of the receive buffer in bytes.
    pub fn buf_size(&self) -> (r: usize)
        ensures
            r == self.spec_buf_size(),
    {
        self.buf_size
    }

    /// Returns a reference to the decoder being used by the instance.
    pub fn decoder_ref(&self) -> (r: &D)
        ensures
            *r == self.spec_decoder(),
    {
        &self.decoder
    }

    /// Returns a mutable reference to the decoder being used by the instance.
    pub fn decoder_mut(&mut self) -> (r: &mut D)
        ensures
            *r == old(self).spec_decoder(),
            final(self).spec_decoder() == *final(r),
            final(self)@ == old(self)@,
            final(self).spec_buf_size() == old(self).spec_buf_size(),
            final(self).spec_local_addr() == old(self).spec_local_addr(),
            final(self).spec_encoder() == old(self).spec_encoder(),
    {
        &mut self.decoder
    }

    /// Returns a reference to the encoder being used by the instance.
    pub fn encoder_ref(&self) -> (r: &E)
        ensures
            *r == self.spec_encoder(),
    {
        &self.encoder
    }

    /// Returns a mutable reference to the encoder being used by the instance.
    pub fn encoder_mut(&mut self) -> (r: &mut E)
        ensures
            *r == old(self).spec_encoder(),
            final(self).spec_encoder() == *final(r),
            final(self)@ == old(self)@,
            final(self).spec_buf_size() == old(self).spec_buf_size(),
            final(self).spec_local_addr() == old(self).spec_local_addr(),
            final(self).spec_decoder() == old(self).spec_decoder(),
    {
        &mut self.encoder
    }
}

impl<E, D, S> UdpTransport for UdpTransporter<E, D, S> {
    fn local_addr(&self) -> SocketAddress {
        self.local_addr
    }
}

} // verus!
