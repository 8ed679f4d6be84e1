//! ICMP message types: the Type byte every ICMP message starts with, which
//! decides what the rest of the bytes mean (IANA ICMP parameters).

use vstd::prelude::*;

verus! {

/// The 8-bit Type field: what kind of ICMP message this is.
#[derive(Debug, Clone, Copy, PartialEq, Eq, Structural)]
pub enum IcmpType {
    /// Echo Reply (type 0): a ping response.
    EchoReply,
    /// Echo Request (type 8): a ping.
    EchoRequest,
    /// A type not yet mapped by this parser; carries the raw value.
    Unknown(u8),
}

/// The ICMP type a raw 8-bit value denotes.
pub open spec fn spec_icmp_type(value: u8) -> IcmpType {
    if value == 0 {
        IcmpType::EchoReply
    } else if value == 8 {
        IcmpType::EchoRequest
    } else {
        IcmpType::Unknown(value)
    }
}

/// The raw 8-bit value of an ICMP type.
pub open spec fn spec_icmp_type_value(t: IcmpType) -> u8 {
    match t {
        IcmpType::EchoReply => 0,
        IcmpType::EchoRequest => 8,
        IcmpType::Unknown(x) => x,
    }
}

/// A type is canonical when `Unknown` does not carry a mapped value.
pub open spec fn icmp_type_is_canonical(t: IcmpType) -> bool {
    match t {
        IcmpType::Unknown(x) => x != 0 && x != 8,
        _ => true,
    }
}

impl From<u8> for IcmpType {
    fn from(value: u8) -> (t: Self) {
        match value {
            0 => Self::EchoReply,
            8 => Self::EchoRequest,
            x => Self::Unknown(x),
        }
    }
}

impl vstd::std_specs::convert::FromSpecImpl<u8> for IcmpType {
    open spec fn obeys_from_spec() -> bool {
        true
    }

    open spec fn from_spec(value: u8) -> Self {
        spec_icmp_type(value)
    }
}

impl IcmpType {
    /// Returns the raw 8-bit type value.
    pub fn value(self) -> (v: u8)
        ensures
            v == spec_icmp_type_value(self),
    {
        match self {
            Self::EchoReply => 0,
            Self::EchoRequest => 8,
            Self::Unknown(x) => x,
        }
    }
}

/// Decoding a raw value and reading it back gives the raw value; decoded
/// types are canonical, and a canonical type is the one its value decodes
/// to.
pub proof fn lemma_icmp_type_roundtrip(value: u8, t: IcmpType)
    ensures
        spec_icmp_type_value(spec_icmp_type(value)) == value,
        icmp_type_is_canonical(spec_icmp_type(value)),
        icmp_type_is_canonical(t) ==> spec_icmp_type(spec_icmp_type_value(t)) == t,
{
}

impl IcmpType {
    /// The name of an ICMP type.
    pub open spec fn spec_name(self) -> Seq<char> {
        match self {
            IcmpType::EchoReply => "Echo (ping) reply"@,
            IcmpType::EchoRequest => "Echo (ping) request"@,
            IcmpType::Unknown(_) => "Unknown"@,
        }
    }

    /// The name of an ICMP type: "Echo (ping) reply", "Echo (ping)
    /// request" or "Unknown".
    pub fn name(&self) -> (n: &'static str)
        ensures
            n@ == self.spec_name(),
    {
        match self {
            Self::EchoReply => "Echo (ping) reply",
            Self::EchoRequest => "Echo (ping) request",
            Self::Unknown(_) => "Unknown",
        }
    }
}

/// The name of the ICMP type a Type byte decodes to is that of its
/// number: "Echo (ping) reply" for exactly 0, "Echo (ping) request" for
/// exactly 8, and "Unknown" for every other number. Distinct mapped types
/// therefore have distinct names.
pub proof fn lemma_type_name_is_its_number(v: u8)
    ensures
        spec_icmp_type(v).spec_name() == "Echo (ping) reply"@ <==> v == 0,
        spec_icmp_type(v).spec_name() == "Echo (ping) request"@ <==> v == 8,
        spec_icmp_type(v).spec_name() == "Unknown"@ <==> (v != 0 && v != 8),
{
    reveal_strlit("Echo (ping) reply");
    reveal_strlit("Echo (ping) request");
    reveal_strlit("Unknown");
    assert("Echo (ping) reply"@.len() == 17 && "Echo (ping) request"@.len() == 19);
    assert("Unknown"@.len() == 7);
}

} // verus!
