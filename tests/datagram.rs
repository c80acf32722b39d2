use fibers_transport::udp::{datagram_payload, DatagramSendStep, SendSlot, DEFAULT_UDP_BUF_SIZE};
use fibers_transport::{ErrorKind, IpAddress, SocketAddress, UdpTransport, UdpTransporter, UdpTransporterBuilder};

fn addr(port: u16) -> SocketAddress {
    SocketAddress::new(IpAddress::V4(0x7f00_0001), port)
}

fn transporter() -> UdpTransporter<(), (), &'static str> {
    UdpTransporterBuilder::<(), ()>::new().finish(addr(3000))
}

#[test]
fn datagram_builder_defaults() {
    let t = transporter();
    assert_eq!(DEFAULT_UDP_BUF_SIZE, 4096);
    assert_eq!(t.buf_size(), 4096);
    assert_eq!(t.local_addr(), addr(3000));
    let buf = t.new_recv_buffer();
    assert_eq!(buf.len(), 4096);
    assert!(buf.iter().all(|b| *b == 0));
}

#[test]
fn datagram_builder_buf_size() {
    let t: UdpTransporter<u8, u8, u8> =
        UdpTransporterBuilder::with_codec(1u8, 2u8).buf_size(3).finish(addr(1));
    assert_eq!(t.new_recv_buffer(), vec![0u8, 0, 0]);
    assert_eq!(*t.encoder_ref(), 1);
    assert_eq!(*t.decoder_ref(), 2);
}

#[test]
fn datagram_sends_one_at_a_time_to_its_peer() {
    let mut t = transporter();
    t.start_send(addr(1), "foo");
    t.start_send(addr(2), "bar");
    assert_eq!(t.message_queue_len(), 2);

    match t.send_step(SendSlot::Idle) {
        Ok(DatagramSendStep::Send(peer, item)) => {
            assert_eq!(peer, addr(1));
            assert_eq!(item, "foo");
        }
        _ => panic!("expected a send"),
    }
    assert_eq!(t.message_queue_len(), 1);

    assert!(matches!(t.send_step(SendSlot::InFlight), Ok(DatagramSendStep::Pending)));
    assert_eq!(t.message_queue_len(), 1);

    match t.send_step(SendSlot::Completed { len: 3, written: 3 }) {
        Ok(DatagramSendStep::Send(peer, item)) => {
            assert_eq!(peer, addr(2));
            assert_eq!(item, "bar");
        }
        _ => panic!("expected a send"),
    }
    assert!(matches!(
        t.send_step(SendSlot::Completed { len: 3, written: 3 }),
        Ok(DatagramSendStep::Ready)
    ));
    assert_eq!(t.message_queue_len(), 0);
    assert!(matches!(t.send_step(SendSlot::Idle), Ok(DatagramSendStep::Ready)));
}

#[test]
fn datagram_short_write_is_an_error() {
    let mut t = transporter();
    t.start_send(addr(1), "next");
    match t.send_step(SendSlot::Completed { len: 10, written: 4 }) {
        Err(e) => assert_eq!(e.kind(), ErrorKind::Other),
        Ok(_) => panic!("a short write must fail"),
    }
    // the queued item did not start
    assert_eq!(t.message_queue_len(), 1);
}

#[test]
fn datagram_payload_is_the_received_range() {
    let buf = [1u8, 2, 3, 4, 5];
    assert_eq!(datagram_payload(&buf, 3), &[1u8, 2, 3][..]);
    assert_eq!(datagram_payload(&buf, 0), &[] as &[u8]);
    assert_eq!(datagram_payload(&buf, 5), &buf[..]);
}
