//! ICMP (Internet Control Message Protocol, RFC 792).

pub mod anomalies;
pub mod display;
pub mod message;
pub mod packet;
pub mod types;
