//! Core of a user-space IP relay: wire-format codecs for IPv4 and ICMP
//! headers (including the one's-complement checksum), a bounded datagram
//! buffer, a packet reconstruction component, and the flow registry and
//! per-flow state machine that multiplex many logical flows over one
//! readiness-driven event loop.

pub mod binary;
pub mod checksum;
pub mod connection;
pub mod datagram_buffer;
pub mod icmp_header;
pub mod ipv4_header;
pub mod packetizer;
pub mod router;
pub mod selector;
