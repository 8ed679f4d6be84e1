//! A packet dissector for Ethernet II, IPv4 and ICMP, with the layout of
//! each header and the rules of each layer stated and proved.

pub mod bytes;
pub mod checksum;
pub mod errors;
pub mod frame;
pub mod layer2;
pub mod layer3;
pub mod text;
