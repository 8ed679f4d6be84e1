//! Network layer (Layer 3) protocols.

pub mod icmp;
pub mod ipv4;
