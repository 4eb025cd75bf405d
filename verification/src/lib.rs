//! A user-space TCP protocol engine.
//!
//! The engine terminates TCP connections on top of raw IPv4 datagrams read
//! from a virtual point-to-point interface.  It implements the RFC 793
//! connection state machine: passive and active open, the three-way
//! handshake, data transfer with send and receive windows, the four-way
//! close, retransmission on timeout and the 2MSL quiet period.  Received
//! application bytes are handed to a pluggable [`tcp::Service`]; the bytes a
//! service returns are sent back to the peer.
//!
//! All protocol decisions live in [`tcp`] and are verified against the
//! mathematical transition function [`tcp::step`].  Encoding and decoding of
//! the wire headers is delegated to the `etherparse` crate through the thin
//! trusted layer in [`codec`].  Reading from and writing to the interface is
//! left to the embedding program.

pub mod codec;
pub mod driver;
pub mod echo_server;
pub mod http_server;
pub mod laws;
pub mod segment;
pub mod seqnum;
pub mod tcp;
pub mod tcp_header;
