//! Answering ARP requests for a claimed IPv4 address on an Ethernet link.
//!
//! `arp` holds the 28-byte Ethernet/IPv4 ARP wire format; `responder` decides,
//! for each received message, whether and how to answer it.
pub mod address;
pub mod arp;
pub mod responder;
