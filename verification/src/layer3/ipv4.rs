//! IPv4 (Internet Protocol version 4, RFC 791).

pub mod anomalies;
pub mod display;
pub mod dscp_ecn;
pub mod errors;
pub mod flags;
pub mod packet;
pub mod protocol;
