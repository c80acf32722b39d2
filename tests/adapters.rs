use fibers_transport::tcp_listener::TcpListener;
use fibers_transport::{
    wait_recv_outcome, Error, ErrorKind, FixedPeerTransporter, IpAddress, PeerAddr, RcTransporter,
    SocketAddress, TcpListenerBuilder,
};

fn addr(port: u16) -> SocketAddress {
    SocketAddress::new(IpAddress::V4(0x7f00_0001), port)
}

#[test]
fn fixed_peer_rejects_other_destinations() {
    let t = FixedPeerTransporter::new(addr(9), (), "inner");
    match t.destination(&addr(8)) {
        Err(e) => assert_eq!(e.kind(), ErrorKind::InvalidInput),
        Ok(_) => panic!("wrong peer accepted"),
    }
    assert!(t.destination(&addr(9)).is_ok());
    assert_eq!(*t.exterior_peer(), addr(9));
    assert_eq!(*t.inner_ref(), "inner");
}

#[test]
fn fixed_peer_translates_identities() {
    let x = addr(10);
    let y = addr(20);
    let t = FixedPeerTransporter::new(x, y, ());
    assert_eq!(t.destination(&x).unwrap(), y);
    assert_eq!(t.retag_received(&y, 5u8), Some((x, 5u8)));
    assert_eq!(t.retag_received(&addr(30), 6u8), None);
    assert_eq!(*t.interior_peer(), y);
}

#[test]
fn fixed_peer_inner_mut_keeps_peers() {
    let mut t = FixedPeerTransporter::new(addr(1), (), 0u32);
    *t.inner_mut() = 42;
    assert_eq!(*t.inner_ref(), 42);
    assert_eq!(*t.exterior_peer(), addr(1));
}

#[test]
fn peer_addr_impls() {
    assert!(().same_peer(&()));
    assert!(addr(1).same_peer(&addr(1)));
    assert!(!addr(1).same_peer(&addr(2)));
    let v6 = SocketAddress::new(IpAddress::V6 { octets: 1, flowinfo: 0, scope_id: 0 }, 1);
    assert!(!addr(1).same_peer(&v6));
    assert_eq!(v6.duplicate(), v6);
}

#[test]
fn peek_observes_the_same_item_until_consumed() {
    let mut t: RcTransporter<(), SocketAddress, &str> = RcTransporter::new(());
    let show = |p: &SocketAddress, x: &&str| (p.port, x.to_string());
    assert!(t.needs_recv_for_peek());
    assert_eq!(t.with_peek_recv(None, show), None);
    assert_eq!(t.with_peek_recv(Some((addr(1), "a")), show), Some((1, "a".to_string())));
    assert!(!t.needs_recv_for_peek());
    // a second peek observes the held item, not a later delivery
    assert_eq!(t.with_peek_recv(Some((addr(2), "b")), show), Some((1, "a".to_string())));
    assert_eq!(t.take_peeked(), Some((addr(1), "a")));
    assert_eq!(t.take_peeked(), None);
    assert!(t.needs_recv_for_peek());
}

#[test]
fn shared_inner_access() {
    let mut t: RcTransporter<u8, (), u8> = RcTransporter::new(1);
    let old = t.with_inner_mut(|x| std::mem::replace(x, 2));
    assert_eq!(old, 1);
    assert_eq!(t.with_inner_ref(|x| *x + 1), 3);
    let _ = t.with_peek_recv(Some(((), 9)), |_, x| *x);
    t.with_inner_mut(|x| *x = 4);
    assert_eq!(t.take_peeked(), Some(((), 9)));
}

#[test]
fn listener_completes_pending_connections() {
    let mut l: TcpListener<u8, u16, &str> =
        TcpListenerBuilder::with_codec(1u8, 2u16).finish(addr(4000));
    assert_eq!(l.local_addr(), addr(4000));
    l.add_pending("a");
    l.add_pending("b");
    l.add_pending("c");
    assert_eq!(l.pending_len(), 3);
    assert_eq!(*l.pending_mut(1), "b");
    assert_eq!(l.complete_pending(0), "a");
    // the last entry took the place of the completed one
    assert_eq!(*l.pending_mut(0), "c");
    assert_eq!(l.complete_pending(1), "b");
    assert_eq!(l.complete_pending(0), "c");
    assert_eq!(l.pending_len(), 0);
    assert_eq!(*l.encoder_factory_mut(), 1);
    assert_eq!(*l.decoder_factory_mut(), 2);
}

#[test]
fn wait_recv_reports_termination() {
    assert_eq!(wait_recv_outcome(Some(3u8)).unwrap(), 3);
    match wait_recv_outcome::<u8>(None) {
        Err(e) => assert_eq!(e.kind(), ErrorKind::Other),
        Ok(_) => panic!("termination must fail"),
    }
}

#[test]
fn error_kinds_of_codec_failures() {
    assert_eq!(ErrorKind::of_codec_failure(true), ErrorKind::IoError);
    assert_eq!(ErrorKind::of_codec_failure(false), ErrorKind::CodecError);
    let e = Error::new(ErrorKind::InvalidInput, "bad".to_string());
    assert_eq!(e.kind(), ErrorKind::InvalidInput);
    assert_eq!(e.reason(), "bad");
}

#[test]
fn codec_error_conversion() {
    let io = std::io::Error::new(std::io::ErrorKind::Other, "disk on fire");
    let e = Error::from_codec_error(bytecodec::Error::from(io));
    assert_eq!(e.kind(), ErrorKind::IoError);
    let e = Error::from_codec_error(bytecodec::Error::from(bytecodec::ErrorKind::InvalidInput));
    assert_eq!(e.kind(), ErrorKind::CodecError);
    assert!(e.reason().contains("InvalidInput"));
}
