//! An embedded IPv4 network-address-translation engine.
//!
//! The crate rewrites the addresses and ports of IPv4 packets flowing
//! between an internal (LAN-side) and an external (WAN-side) interface so
//! that many internal endpoints can share one external address.  It keeps a
//! fixed-capacity connection-tracking table, allocates external ports from a
//! rotating dynamic range, parses and rewrites IPv4/TCP/UDP/ICMP headers in
//! place, and maintains the header checksums incrementally.

pub mod checksum;
pub mod entry;
pub mod hook;
pub mod laws;
pub mod packet;
pub mod store;
pub mod table;
pub mod usage;
