//! The IPv4 Protocol field (IANA protocol numbers).

use vstd::prelude::*;

verus! {

/// The 8-bit "Protocol" field: what the IPv4 payload is.
#[derive(Debug, Clone, Copy, PartialEq, Eq, Structural)]
pub enum IpProtocol {
    /// ICMP (1).
    Icmp,
    /// TCP (6).
    Tcp,
    /// UDP (17).
    Udp,
    /// A protocol number not yet mapped by this parser.
    Unknown(u8),
}

/// The protocol a raw 8-bit value denotes.
pub open spec fn spec_ip_protocol(value: u8) -> IpProtocol {
    if value == 1 {
        IpProtocol::Icmp
    } else if value == 6 {
        IpProtocol::Tcp
    } else if value == 17 {
        IpProtocol::Udp
    } else {
        IpProtocol::Unknown(value)
    }
}

/// The raw 8-bit value of a protocol.
pub open spec fn spec_ip_protocol_value(p: IpProtocol) -> u8 {
    match p {
        IpProtocol::Icmp => 1,
        IpProtocol::Tcp => 6,
        IpProtocol::Udp => 17,
        IpProtocol::Unknown(x) => x,
    }
}

/// A protocol is canonical when `Unknown` does not carry a mapped value.
pub open spec fn ip_protocol_is_canonical(p: IpProtocol) -> bool {
    match p {
        IpProtocol::Unknown(x) => x != 1 && x != 6 && x != 17,
        _ => true,
    }
}

impl From<u8> for IpProtocol {
    fn from(value: u8) -> (p: Self) {
        match value {
            1 => Self::Icmp,
            6 => Self::Tcp,
            17 => Self::Udp,
            x => Self::Unknown(x),
        }
    }
}

impl vstd::std_specs::convert::FromSpecImpl<u8> for IpProtocol {
    open spec fn obeys_from_spec() -> bool {
        true
    }

    open spec fn from_spec(value: u8) -> Self {
        spec_ip_protocol(value)
    }
}

impl IpProtocol {
    /// Returns the raw 8-bit protocol number.
    pub fn value(self) -> (v: u8)
        ensures
            v == spec_ip_protocol_value(self),
    {
        match self {
            Self::Icmp => 1,
            Self::Tcp => 6,
            Self::Udp => 17,
            Self::Unknown(x) => x,
        }
    }
}

/// Decoding a raw value and reading it back gives the raw value; decoded
/// protocols are canonical, and a canonical protocol is the one its value
/// decodes to.
pub proof fn lemma_ip_protocol_roundtrip(value: u8, p: IpProtocol)
    ensures
        spec_ip_protocol_value(spec_ip_protocol(value)) == value,
        ip_protocol_is_canonical(spec_ip_protocol(value)),
        ip_protocol_is_canonical(p) ==> spec_ip_protocol(spec_ip_protocol_value(p)) == p,
{
}

impl IpProtocol {
    /// The name of a protocol.
    pub open spec fn spec_name(self) -> Seq<char> {
        match self {
            IpProtocol::Icmp => "ICMP"@,
            IpProtocol::Tcp => "TCP"@,
            IpProtocol::Udp => "UDP"@,
            IpProtocol::Unknown(_) => "Unknown"@,
        }
    }

    /// The name of a protocol: "ICMP", "TCP", "UDP" or "Unknown".
    pub fn name(&self) -> (n: &'static str)
        ensures
            n@ == self.spec_name(),
    {
        match self {
            Self::Icmp => "ICMP",
            Self::Tcp => "TCP",
            Self::Udp => "UDP",
            Self::Unknown(_) => "Unknown",
        }
    }
}

/// The name of the protocol a Protocol byte decodes to is the IANA keyword
/// of that number: "ICMP" for exactly 1, "TCP" for exactly 6, "UDP" for
/// exactly 17, and "Unknown" for every other number. Distinct mapped
/// protocols therefore have distinct names.
pub proof fn lemma_protocol_name_is_its_keyword(v: u8)
    ensures
        spec_ip_protocol(v).spec_name() == "ICMP"@ <==> v == 1,
        spec_ip_protocol(v).spec_name() == "TCP"@ <==> v == 6,
        spec_ip_protocol(v).spec_name() == "UDP"@ <==> v == 17,
        spec_ip_protocol(v).spec_name() == "Unknown"@ <==> (v != 1 && v != 6 && v != 17),
{
    reveal_strlit("ICMP");
    reveal_strlit("TCP");
    reveal_strlit("UDP");
    reveal_strlit("Unknown");
    assert("ICMP"@.len() == 4 && "TCP"@.len() == 3 && "UDP"@.len() == 3 && "Unknown"@.len() == 7);
    assert("TCP"@[0] != "UDP"@[0]);
}

} // verus!
