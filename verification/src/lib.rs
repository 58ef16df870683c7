//! A verified ICMP echo ("ping") protocol engine.
//!
//! The library builds ICMP echo request packets, computes and patches the
//! Internet checksum, decodes IPv4 and ICMP headers from received bytes, and
//! classifies replies against an outstanding request. The raw-socket
//! transport, name resolution and output formatting live outside the library.

pub mod packet;
pub mod ping;
pub mod util;
