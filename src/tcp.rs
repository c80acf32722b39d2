//! Stream transporter: one fixed peer, items framed by an incremental codec
//! over a byte stream.
use crate::peer_addr::SocketAddress;
use std::collections::VecDeque;
use vstd::prelude::*;

verus! {

/// Default size in bytes of the read and write buffers of a stream transporter.
pub const DEFAULT_TCP_BUF_SIZE: usize = 8192;

/// This trait indicates that the implementation carries items over a
/// connection with one fixed peer.
pub trait TcpTransport {
    /// Returns the address of the connected peer.
    fn peer_addr(&self) -> SocketAddress;

    /// Returns the address to which the instance is bound.
    fn local_addr(&self) -> SocketAddress;
}

/// [`TcpTransporter`] builder.
#[derive(Debug)]
pub struct TcpTransporterBuilder<E, D> {
    buf_size: usize,
    encoder: E,
    decoder: D,
}

impl<E: Default, D: Default> TcpTransporterBuilder<E, D> {
    /// Makes a new builder with the default settings and default codecs.
    pub fn new() -> (r: Self)
        ensures
            r.spec_buf_size() == DEFAULT_TCP_BUF_SIZE,
    {
        Self::with_codec(E::default(), D::default())
    }
}

impl<E: Default, D: Default> Default for TcpTransporterBuilder<E, D> {
    fn default() -> (r: Self)
        ensures
            r.spec_buf_size() == DEFAULT_TCP_BUF_SIZE,
    {
        Self::new()
    }
}

impl<E, D> TcpTransporterBuilder<E, D> {
    /// The size of the read and write buffers of the resulting transporter.
    pub closed spec fn spec_buf_size(&self) -> usize {
        self.buf_size
    }

    /// The encoder of the resulting transporter.
    pub closed spec fn spec_encoder(&self) -> E {
        self.encoder
    }

    /// The decoder of the resulting transporter.
    pub closed spec fn spec_decoder(&self) -> D {
        self.decoder
    }

    /// Makes a new builder with the given encoder and decoder.
    pub fn with_codec(encoder: E, decoder: D) -> (r: Self)
        ensures
            r.spec_buf_size() == DEFAULT_TCP_BUF_SIZE,
            r.spec_encoder() == encoder,
            r.spec_decoder() == decoder,
    {
        TcpTransporterBuilder { buf_size: DEFAULT_TCP_BUF_SIZE, encoder, decoder }
    }

    /// Sets the application level read/write buffer size of the resulting
    /// instance in bytes.
    pub fn buf_size(self, size: usize) -> (r: Self)
        ensures
            r.spec_buf_size() == size,
            r.spec_encoder() == self.spec_encoder(),
            r.spec_decoder() == self.spec_decoder(),
    {
        let mut this = self;
        this.buf_size = size;
        this
    }

    /// Builds a transporter for an established connection between
    /// `local_addr` and `peer_addr`, with an empty outgoing queue.
    pub fn finish<S>(self, peer_addr: SocketAddress, local_addr: SocketAddress) -> (r:
        TcpTransporter<E, D, S>)
        ensures
            r@ == (StreamSendState::<S> { queue: Seq::empty(), encoding: false }),
            r.spec_buf_size() == self.spec_buf_size(),
            r.spec_peer_addr() == peer_addr,
            r.spec_local_addr() == local_addr,
            r.spec_encoder() == self.spec_encoder(),
            r.spec_decoder() == self.spec_decoder(),
    {
        TcpTransporter {
            buf_size: self.buf_size,
            peer_addr,
            local_addr,
            encoder: self.encoder,
            decoder: self.decoder,
            outgoing_queue: VecDeque::new(),
            encoding: false,
        }
    }
}

/// The sending side of a stream transporter, as a mathematical value: the
/// items waiting in the outgoing queue, oldest first, and whether the encoder
/// currently holds an item.
pub struct StreamSendState<S> {
    pub queue: Seq<S>,
    pub encoding: bool,
}

impl<S> StreamSendState<S> {
    /// The number of unsent messages: those queued, and the one being encoded.
    pub open spec fn message_queue_len(self) -> nat {
        self.queue.len() + if self.encoding { 1nat } else { 0nat }
    }
}

/// What the driver of a stream transporter observed before a send step.
#[derive(Debug, Clone, Copy, PartialEq, Eq, Structural)]
pub struct StreamSendStatus {
    /// The encoder has no item in progress.
    pub encoder_idle: bool,
    /// The write buffer holds no bytes that the socket has yet to take.
    pub write_buf_empty: bool,
    /// The last write would have blocked.
    pub would_block: bool,
    /// The stream reached its end.
    pub eos: bool,
}

/// Whether a poll loop is finished, must wait for readiness, or goes round again.
#[derive(Debug, Clone, Copy, PartialEq, Eq, Structural)]
pub enum Progress {
    /// Finished: the operation completed.
    Ready,
    /// Wait until the reactor signals readiness, then poll again.
    Pending,
    /// Perform I/O again and take another step.
    Continue,
}

/// The decision of one send step: an item to hand to the encoder, if any, and
/// how the poll goes on.
pub struct SendStep<S> {
    pub encode: Option<S>,
    pub next: Progress,
}

/// One step of sending, as a function of the state and the observed status.
///
/// An idle encoder takes the oldest queued item. With nothing queued, nothing
/// being encoded and nothing left in the write buffer, sending is complete.
/// Otherwise the step waits where a write would block or the stream reached
/// its end, and goes on where neither holds. A stream whose write side ended
/// is treated as one that would block: the poll waits for readiness rather
/// than failing, so items queued on a half-closed connection stay queued.
pub open spec fn stream_send_step<S>(s: StreamSendState<S>, st: StreamSendStatus) -> (
    StreamSendState<S>,
    SendStep<S>,
) {
    let next = if st.would_block || st.eos {
        Progress::Pending
    } else {
        Progress::Continue
    };
    if st.encoder_idle && s.queue.len() > 0 {
        (
            StreamSendState { queue: s.queue.drop_first(), encoding: true },
            SendStep { encode: Some(s.queue[0]), next },
        )
    } else if st.encoder_idle && st.write_buf_empty {
        (StreamSendState { queue: s.queue, encoding: false }, SendStep { encode: None, next: Progress::Ready })
    } else {
        (StreamSendState { queue: s.queue, encoding: !st.encoder_idle }, SendStep { encode: None, next })
    }
}

/// An operation on the sending side of a stream transporter: an item given to
/// `start_send`, or one send step with what the driver observed.
pub enum StreamSendOp<S> {
    Enqueue(S),
    Step(StreamSendStatus),
}

/// The items given to `start_send` in `ops`, in order.
pub open spec fn enqueued_items<S>(ops: Seq<StreamSendOp<S>>) -> Seq<S>
    decreases ops.len(),
{
    if ops.len() == 0 {
        Seq::empty()
    } else {
        let before = enqueued_items(ops.drop_last());
        match ops.last() {
            StreamSendOp::Enqueue(x) => before.push(x),
            StreamSendOp::Step(_) => before,
        }
    }
}

/// The state after performing `ops` from `s`, and the items handed to the
/// encoder on the way, in order.
pub open spec fn run_stream_send<S>(s: StreamSendState<S>, ops: Seq<StreamSendOp<S>>) -> (
    StreamSendState<S>,
    Seq<S>,
)
    decreases ops.len(),
{
    if ops.len() == 0 {
        (s, Seq::empty())
    } else {
        let (prev, handed) = run_stream_send(s, ops.drop_last());
        match ops.last() {
            StreamSendOp::Enqueue(x) => (StreamSendState { queue: prev.queue.push(x), ..prev }, handed),
            StreamSendOp::Step(st) => {
                let (next, step) = stream_send_step(prev, st);
                match step.encode {
                    Some(x) => (next, handed.push(x)),
                    None => (next, handed),
                }
            },
        }
    }
}

/// Whatever the driver observes, a stream transporter hands its items to the
/// encoder in the order in which they were given to `start_send`, each once:
/// the items handed out, followed by those still queued, are the items that
/// were queued at the start followed by those given since.
pub proof fn lemma_stream_send_keeps_order<S>(s: StreamSendState<S>, ops: Seq<StreamSendOp<S>>)
    ensures
        run_stream_send(s, ops).1 + run_stream_send(s, ops).0.queue == s.queue + enqueued_items(ops),
    decreases ops.len(),
{
    if ops.len() > 0 {
        lemma_stream_send_keeps_order(s, ops.drop_last());
        let (prev, handed) = run_stream_send(s, ops.drop_last());
        match ops.last() {
            StreamSendOp::Enqueue(x) => {
                assert(handed + prev.queue.push(x) =~= (handed + prev.queue).push(x));
                assert(s.queue + enqueued_items(ops.drop_last()).push(x) =~= (s.queue
                    + enqueued_items(ops.drop_last())).push(x));
            },
            StreamSendOp::Step(st) => {
                if st.encoder_idle && prev.queue.len() > 0 {
                    assert(handed.push(prev.queue[0]) + prev.queue.drop_first() =~= handed
                        + prev.queue);
                }
            },
        }
    }
}

/// When a send step reports that sending is complete, no message is left
/// unsent: `message_queue_len` is then 0.
pub proof fn lemma_ready_leaves_no_message<S>(s: StreamSendState<S>, st: StreamSendStatus)
    ensures
        stream_send_step(s, st).1.next == Progress::Ready ==> stream_send_step(
            s,
            st,
        ).0.message_queue_len() == 0,
{
}

/// What the driver of a stream transporter observed before a receive step.
#[derive(Debug, Clone, Copy, PartialEq, Eq, Structural)]
pub struct StreamRecvStatus {
    /// The decoder has completed an item.
    pub decoder_idle: bool,
    /// The stream reached its end.
    pub eos: bool,
    /// The last read would have blocked.
    pub would_block: bool,
}

/// The decision of one receive step.
#[derive(Debug, Clone, Copy, PartialEq, Eq, Structural)]
pub enum RecvStep {
    /// Finish decoding and hand the item out.
    Finish,
    /// The peer closed the stream: no more items will arrive.
    Terminated,
    /// Wait until the reactor signals readability.
    Pending,
    /// Read again and take another step.
    Continue,
}

/// One step of receiving: a completed item comes first, then the end of the
/// stream, then a read that would block.
pub open spec fn stream_recv_step_spec(st: StreamRecvStatus) -> RecvStep {
    if st.decoder_idle {
        RecvStep::Finish
    } else if st.eos {
        RecvStep::Terminated
    } else if st.would_block {
        RecvStep::Pending
    } else {
        RecvStep::Continue
    }
}

/// Decides one step of a stream transporter's receive loop.
pub fn stream_recv_step(st: StreamRecvStatus) -> (r: RecvStep)
    ensures
        r == stream_recv_step_spec(st),
{
    if st.decoder_idle {
        RecvStep::Finish
    } else if st.eos {
        RecvStep::Terminated
    } else if st.would_block {
        RecvStep::Pending
    } else {
        RecvStep::Continue
    }
}

/// The state of a stream transporter: its fixed peer, its codec and its
/// outgoing queue. The connection itself is driven beside it.
#[derive(Debug)]
pub struct TcpTransporter<E, D, S> {
    buf_size: usize,
    peer_addr: SocketAddress,
    local_addr: SocketAddress,
    encoder: E,
    decoder: D,
    outgoing_queue: VecDeque<S>,
    encoding: bool,
}

impl<E, D, S> View for TcpTransporter<E, D, S> {
    type V = StreamSendState<S>;

    closed spec fn view(&self) -> StreamSendState<S> {
        StreamSendState { queue: self.outgoing_queue@, encoding: self.encoding }
    }
}

impl<E, D, S> TcpTransporter<E, D, S> {
    /// The size of the read and write buffers.
    pub closed spec fn spec_buf_size(&self) -> usize {
        self.buf_size
    }

    /// The address of the connected peer.
    pub closed spec fn spec_peer_addr(&self) -> SocketAddress {
        self.peer_addr
    }

    /// The address to which the instance is bound.
    pub closed spec fn spec_local_addr(&self) -> SocketAddress {
        self.local_addr
    }

    /// The encoder.
    pub closed spec fn spec_encoder(&self) -> E {
        self.encoder
    }

    /// The decoder.
    pub closed spec fn spec_decoder(&self) -> D {
        self.decoder
    }

    /// Everything but the outgoing queue and the encoder's state is the same
    /// in `self` and `other`.
    pub open spec fn same_connection(&self, other: &Self) -> bool {
        &&& self.spec_buf_size() == other.spec_buf_size()
        &&& self.spec_peer_addr() == other.spec_peer_addr()
        &&& self.spec_local_addr() == other.spec_local_addr()
    }

    /// Starts sending `item` to the peer: it joins the end of the outgoing
    /// queue. The driver then polls sending.
    pub fn start_send(&mut self, peer: (), item: S)
        ensures
            final(self)@ == (StreamSendState { queue: old(self)@.queue.push(item), ..old(self)@ }),
            final(self).same_connection(old(self)),
            final(self).spec_encoder() == old(self).spec_encoder(),
            final(self).spec_decoder() == old(self).spec_decoder(),
    {
        self.outgoing_queue.push_back(item);
    }

    /// Decides one step of the send loop from what the driver observed.
    ///
    /// Before the step the driver performs the pending write I/O and feeds
    /// the encoder's bytes into the write buffer. After it, the driver starts
    /// encoding `encode`, if any, and then finishes, waits or goes on as
    /// `next` says.
    pub fn send_step(&mut self, st: StreamSendStatus) -> (r: SendStep<S>)
        ensures
            (final(self)@, r) == stream_send_step(old(self)@, st),
            final(self).same_connection(old(self)),
            final(self).spec_encoder() == old(self).spec_encoder(),
            final(self).spec_decoder() == old(self).spec_decoder(),
    {
        let next = if st.would_block || st.eos {
            Progress::Pending
        } else {
            Progress::Continue
        };
        if st.encoder_idle {
            match self.outgoing_queue.pop_front() {
                Some(item) => {
                    self.encoding = true;
                    SendStep { encode: Some(item), next }
                },
                None => {
                    self.encoding = false;
                    if st.write_buf_empty {
                        SendStep { encode: None, next: Progress::Ready }
                    } else {
                        SendStep { encode: None, next }
                    }
                },
            }
        } else {
            self.encoding = true;
            SendStep { encode: None, next }
        }
    }

    /// Returns the number of unsent messages in the queue of the instance,
    /// the one being encoded included.
    pub fn message_queue_len(&self) -> (r: usize)
        ensures
            r as nat == if self@.message_queue_len() <= usize::MAX {
                self@.message_queue_len()
            } else {
                usize::MAX as nat
            },
    {
        let queued = self.outgoing_queue.len();
        if self.encoding {
            queued.saturating_add(1)
        } else {
            queued
        }
    }

    /// Returns the size of the read and write buffers in bytes.
    pub fn buf_size(&self) -> (r: usize)
        ensures
            r == self.spec_buf_size(),
    {
        self.buf_size
    }

    /// Returns the address of the connected peer.
    pub fn peer_addr(&self) -> (r: SocketAddress)
        ensures
            r == self.spec_peer_addr(),
    {
        self.peer_addr
    }

    /// Returns the address to which the instance is bound.
    pub fn local_addr(&self) -> (r: SocketAddress)
        ensures
            r == self.spec_local_addr(),
    {
        self.local_addr
    }

    /// Returns a reference to the decoder being used by the instance.
    pub fn decoder_ref(&self) -> (r: &D)
        ensures
            *r == self.spec_decoder(),
    {
        &self.decoder
    }

    /// Returns a mutable reference to the decoder being used by the instance.
    pub fn decoder_mut(&mut self) -> (r: &mut D)
        ensures
            *r == old(self).spec_decoder(),
            final(self).spec_decoder() == *final(r),
            final(self)@ == old(self)@,
            final(self).same_connection(old(self)),
            final(self).spec_encoder() == old(self).spec_encoder(),
    {
        &mut self.decoder
    }

    /// Returns a reference to the encoder being used by the instance.
    pub fn encoder_ref(&self) -> (r: &E)
        ensures
            *r == self.spec_encoder(),
    {
        &self.encoder
    }

    /// Returns a mutable reference to the encoder being used by the instance.
    pub fn encoder_mut(&mut self) -> (r: &mut E)
        ensures
            *r == old(self).spec_encoder(),
            final(self).spec_encoder() == *final(r),
            final(self)@ == old(self)@,
            final(self).same_connection(old(self)),
            final(self).spec_decoder() == old(self).spec_decoder(),
    {
        &mut self.encoder
    }
}

impl<E, D, S> TcpTransport for TcpTransporter<E, D, S> {
    fn peer_addr(&self) -> SocketAddress {
        self.peer_addr
    }

    fn local_addr(&self) -> SocketAddress {
        self.local_addr
    }
}

} // verus!
