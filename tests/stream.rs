use fibers_transport::tcp::{
    stream_recv_step, Progress, RecvStep, StreamRecvStatus, StreamSendStatus, DEFAULT_TCP_BUF_SIZE,
};
use fibers_transport::{IpAddress, SocketAddress, TcpTransporter, TcpTransporterBuilder};

fn addr(port: u16) -> SocketAddress {
    SocketAddress::new(IpAddress::V4(0x7f00_0001), port)
}

fn idle(write_buf_empty: bool, would_block: bool) -> StreamSendStatus {
    StreamSendStatus { encoder_idle: true, write_buf_empty, would_block, eos: false }
}

fn transporter() -> TcpTransporter<(), (), u8> {
    TcpTransporterBuilder::<(), ()>::new().finish(addr(2000), addr(1000))
}

#[test]
fn stream_builder_defaults() {
    let t = transporter();
    assert_eq!(DEFAULT_TCP_BUF_SIZE, 8192);
    assert_eq!(t.buf_size(), 8192);
    assert_eq!(t.peer_addr(), addr(2000));
    assert_eq!(t.local_addr(), addr(1000));
    assert_eq!(t.message_queue_len(), 0);
}

#[test]
fn stream_builder_buf_size_and_codec() {
    let t: TcpTransporter<u8, u16, u8> =
        TcpTransporterBuilder::with_codec(3u8, 4u16).buf_size(16).finish(addr(1), addr(2));
    assert_eq!(t.buf_size(), 16);
    assert_eq!(*t.encoder_ref(), 3);
    assert_eq!(*t.decoder_ref(), 4);
}

#[test]
fn stream_codec_accessors_mutate_in_place() {
    let mut t: TcpTransporter<u8, u8, u8> =
        TcpTransporterBuilder::with_codec(1u8, 2u8).finish(addr(1), addr(2));
    *t.encoder_mut() = 7;
    *t.decoder_mut() = 9;
    assert_eq!(*t.encoder_ref(), 7);
    assert_eq!(*t.decoder_ref(), 9);
}

#[test]
fn stream_items_go_to_the_encoder_in_order() {
    let mut t = transporter();
    t.start_send((), 10);
    t.start_send((), 20);
    t.start_send((), 30);
    assert_eq!(t.message_queue_len(), 3);

    let step = t.send_step(idle(true, false));
    assert_eq!(step.encode, Some(10));
    assert_eq!(step.next, Progress::Continue);
    assert_eq!(t.message_queue_len(), 3);

    // the encoder is still busy: nothing new is taken
    let step = t.send_step(StreamSendStatus {
        encoder_idle: false,
        write_buf_empty: false,
        would_block: false,
        eos: true,
    });
    assert_eq!(step.encode, None);
    assert_eq!(step.next, Progress::Pending);
    assert_eq!(t.message_queue_len(), 3);

    let step = t.send_step(idle(false, true));
    assert_eq!(step.encode, Some(20));
    assert_eq!(step.next, Progress::Pending);
    assert_eq!(t.message_queue_len(), 2);

    let step = t.send_step(idle(false, false));
    assert_eq!(step.encode, Some(30));
    assert_eq!(t.message_queue_len(), 1);
}

#[test]
fn stream_ready_only_when_everything_left() {
    let mut t = transporter();
    t.start_send((), 5);
    let step = t.send_step(idle(true, false));
    assert_eq!(step.encode, Some(5));
    // encoder done, but bytes are still in the write buffer
    let step = t.send_step(idle(false, false));
    assert_eq!(step.encode, None);
    assert_eq!(step.next, Progress::Continue);
    assert_eq!(t.message_queue_len(), 0);
    let step = t.send_step(idle(false, true));
    assert_eq!(step.next, Progress::Pending);
    let step = t.send_step(idle(true, true));
    assert_eq!(step.encode, None);
    assert_eq!(step.next, Progress::Ready);
    assert_eq!(t.message_queue_len(), 0);
    // polling again with nothing queued stays ready
    let step = t.send_step(idle(true, false));
    assert_eq!(step.next, Progress::Ready);
    assert_eq!(t.message_queue_len(), 0);
}

#[test]
fn stream_recv_decisions() {
    let st = |decoder_idle, eos, would_block| StreamRecvStatus { decoder_idle, eos, would_block };
    assert_eq!(stream_recv_step(st(true, true, true)), RecvStep::Finish);
    assert_eq!(stream_recv_step(st(false, true, true)), RecvStep::Terminated);
    assert_eq!(stream_recv_step(st(false, false, true)), RecvStep::Pending);
    assert_eq!(stream_recv_step(st(false, false, false)), RecvStep::Continue);
}
