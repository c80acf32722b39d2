//! Transport layer abstraction: the peer-identity, queueing and decision logic
//! of stream and datagram transporters, connection listeners and adapters,
//! kept apart from the sockets that carry the bytes.
//!
//! Each transporter here is the state that a driver keeps beside its socket:
//! the driver performs the I/O and the incremental encoding and decoding, and
//! asks the transporter what to do next.
use vstd::prelude::*;

pub mod base;
pub mod error;
pub mod fixed_peer;
pub mod peer_addr;
pub mod share;
pub mod tcp;
pub mod tcp_listener;
pub mod udp;

pub use base::wait_recv_outcome;
pub use error::{Error, ErrorKind};
pub use fixed_peer::FixedPeerTransporter;
pub use peer_addr::{IpAddress, PeerAddr, SocketAddress};
pub use share::RcTransporter;
pub use tcp::{TcpTransport, TcpTransporter, TcpTransporterBuilder};
pub use tcp_listener::{TcpListener, TcpListenerBuilder};
pub use udp::{UdpTransport, UdpTransporter, UdpTransporterBuilder};

verus! {

/// This crate specific result type.
pub type Result<T> = core::result::Result<T, Error>;

} // verus!
