//! A summary of an ICMP message that keeps only its decoded fields.

use vstd::prelude::*;

use crate::checksum::ChecksumStatus;
use crate::layer3::icmp::types::IcmpType;

verus! {

/// The fixed fields of an Echo Request/Reply body.
#[derive(Debug, Clone, Copy, PartialEq, Eq, Structural)]
pub struct IcmpEcho {
    /// Identifies which `ping` session this message belongs to.
    pub identifier: u16,
    /// Incremented on each Echo Request sent, so replies can be matched
    /// to requests and reordering or loss can be detected.
    pub sequence_number: u16,
}

/// The type-specific part of an ICMP message.
#[derive(Debug, Clone, Copy, PartialEq, Eq, Structural)]
pub enum IcmpMessage {
    /// Echo Request or Echo Reply body.
    Echo(IcmpEcho),
    /// A type not yet mapped by this parser.
    Other,
}

/// The decoded fields of an ICMP message.
#[derive(Debug)]
pub struct IcmpHeader {
    /// What kind of ICMP message this is.
    pub type_: IcmpType,
    /// Sub-classifies the Type.
    pub code: u8,
    /// Checksum covering the entire ICMP message (header + data).
    pub checksum: u16,
    /// Whether the checksum verified.
    pub checksum_status: ChecksumStatus,
    /// The type-specific body.
    pub message: IcmpMessage,
}

} // verus!
