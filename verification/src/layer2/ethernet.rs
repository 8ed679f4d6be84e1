//! Ethernet II framing: the Data Link layer (Layer 2).
//!
//! Ethernet II uses a fixed 14-byte header: 6 bytes of destination MAC
//! address, 6 bytes of source MAC address and 2 bytes of EtherType, which
//! identifies the protocol carried in the payload. The Frame Check Sequence
//! trailer, stripped by most capture tools, is not expected.

use vstd::prelude::*;

use crate::bytes::{be16, read_be16};
use crate::text::{dec_digits, hex_digits, prefixed_hex, push_char, push_dec_usize, push_hex, push_prefixed_hex, push_str};

verus! {

/// Length of the fixed Ethernet II header.
pub const HEADER_LENGTH: usize = 14;

/// A 6-byte Ethernet (MAC) address.
#[derive(Debug, Clone, Copy, PartialEq, Eq)]
pub struct MacAddress(pub [u8; 6]);

/// The 16-bit EtherType field: what protocol the payload carries.
#[derive(Debug, Clone, Copy, PartialEq, Eq, Structural)]
pub enum EtherType {
    /// IPv4 (0x0800).
    Ipv4,
    /// ARP (0x0806).
    Arp,
    /// IPv6 (0x86DD).
    Ipv6,
    /// A value not yet mapped by this parser.
    Unknown(u16),
}

/// The EtherType a raw 16-bit value denotes.
pub open spec fn spec_ether_type(value: u16) -> EtherType {
    if value == 0x0800 {
        EtherType::Ipv4
    } else if value == 0x0806 {
        EtherType::Arp
    } else if value == 0x86DD {
        EtherType::Ipv6
    } else {
        EtherType::Unknown(value)
    }
}

/// The raw 16-bit value of an EtherType.
pub open spec fn spec_ether_type_value(t: EtherType) -> u16 {
    match t {
        EtherType::Ipv4 => 0x0800,
        EtherType::Arp => 0x0806,
        EtherType::Ipv6 => 0x86DD,
        EtherType::Unknown(x) => x,
    }
}

/// An EtherType is canonical when it is the one its own value denotes:
/// `Unknown` never carries a mapped value.
pub open spec fn ether_type_is_canonical(t: EtherType) -> bool {
    match t {
        EtherType::Unknown(x) => x != 0x0800 && x != 0x0806 && x != 0x86DD,
        _ => true,
    }
}

impl From<u16> for EtherType {
    fn from(value: u16) -> (t: Self) {
        match value {
            0x0800 => Self::Ipv4,
            0x0806 => Self::Arp,
            0x86DD => Self::Ipv6,
            x => Self::Unknown(x),
        }
    }
}

impl vstd::std_specs::convert::FromSpecImpl<u16> for EtherType {
    open spec fn obeys_from_spec() -> bool {
        true
    }

    open spec fn from_spec(value: u16) -> Self {
        spec_ether_type(value)
    }
}

impl EtherType {
    /// Returns the raw 16-bit EtherType value for this variant.
    pub fn value(self) -> (v: u16)
        ensures
            v == spec_ether_type_value(self),
    {
        match self {
            Self::Ipv4 => 0x0800,
            Self::Arp => 0x0806,
            Self::Ipv6 => 0x86DD,
            Self::Unknown(x) => x,
        }
    }
}

/// Decoding a raw value and reading the value back gives the raw value;
/// every decoded EtherType is canonical, and a canonical EtherType is the
/// one its value decodes to.
pub proof fn lemma_ether_type_roundtrip(value: u16, t: EtherType)
    ensures
        spec_ether_type_value(spec_ether_type(value)) == value,
        ether_type_is_canonical(spec_ether_type(value)),
        ether_type_is_canonical(t) ==> spec_ether_type(spec_ether_type_value(t)) == t,
{
}

/// Errors that can occur while parsing an Ethernet II frame.
#[derive(Debug, Clone, Copy, PartialEq, Eq, Structural)]
pub enum EthernetError {
    /// The provided buffer is smaller than the fixed 14-byte header.
    BufferTooShortForHeader {
        /// Always 14.
        expected: usize,
        /// The actual number of bytes present.
        got: usize,
    },
}

/// The decoded fields of an Ethernet II frame header.
#[derive(Debug)]
pub struct EthernetHeader {
    /// Destination MAC address.
    pub dst_mac: MacAddress,
    /// Source MAC address.
    pub src_mac: MacAddress,
    /// What protocol the payload carries.
    pub ethertype: EtherType,
}

/// Everything after the 14-byte header.
pub open spec fn ethernet_payload(b: Seq<u8>) -> Seq<u8> {
    b.subrange(HEADER_LENGTH as int, b.len() as int)
}

impl EthernetHeader {
    /// The header fields that the first 14 bytes of `buf` encode.
    pub open spec fn decodes(self, buf: Seq<u8>) -> bool {
        &&& buf.len() >= HEADER_LENGTH
        &&& self.dst_mac.0@ == buf.subrange(0, 6)
        &&& self.src_mac.0@ == buf.subrange(6, 12)
        &&& self.ethertype == spec_ether_type(be16(buf[12], buf[13]))
    }

    /// Parses an Ethernet II header from `buf`, returning the header
    /// and the remaining payload (everything after the first 14 bytes).
    ///
    /// Fails with `BufferTooShortForHeader` exactly when `buf` is shorter
    /// than 14 bytes.
    pub fn parse(buf: &[u8]) -> (r: Result<(Self, &[u8]), EthernetError>)
        ensures
            buf@.len() < HEADER_LENGTH ==> r == Err::<(Self, &[u8]), EthernetError>(
                EthernetError::BufferTooShortForHeader { expected: HEADER_LENGTH, got: buf@.len() as usize },
            ),
            buf@.len() >= HEADER_LENGTH ==> (r matches Ok((h, payload)) && h.decodes(buf@)
                && payload@ == ethernet_payload(buf@)),
    {
        if buf.len() < HEADER_LENGTH {
            return Err(EthernetError::BufferTooShortForHeader { expected: HEADER_LENGTH, got: buf.len() });
        }
        let dst_mac = MacAddress([buf[0], buf[1], buf[2], buf[3], buf[4], buf[5]]);
        let src_mac = MacAddress([buf[6], buf[7], buf[8], buf[9], buf[10], buf[11]]);
        let ethertype = EtherType::from(read_be16(buf[12], buf[13]));
        let payload = &buf[HEADER_LENGTH..buf.len()];
        assert(dst_mac.0@ =~= buf@.subrange(0, 6));
        assert(src_mac.0@ =~= buf@.subrange(6, 12));
        Ok((Self { dst_mac, src_mac, ethertype }, payload))
    }
}

impl MacAddress {
    /// The address as six colon-separated pairs of hexadecimal digits.
    pub open spec fn spec_text(&self) -> Seq<char> {
        let a = self.0@;
        hex_digits(a[0] as nat, 2) + seq![':'] + hex_digits(a[1] as nat, 2) + seq![':'] + hex_digits(
            a[2] as nat,
            2,
        ) + seq![':'] + hex_digits(a[3] as nat, 2) + seq![':'] + hex_digits(a[4] as nat, 2) + seq![
            ':',
        ] + hex_digits(a[5] as nat, 2)
    }

    /// Appends the address as six colon-separated pairs of hexadecimal
    /// digits, such as `00:11:22:33:44:55`.
    pub fn write_text(&self, out: &mut String)
        ensures
            final(out)@ == old(out)@ + self.spec_text(),
    {
        push_hex(out, self.0[0] as u64, 2);
        push_char(out, ':');
        push_hex(out, self.0[1] as u64, 2);
        push_char(out, ':');
        push_hex(out, self.0[2] as u64, 2);
        push_char(out, ':');
        push_hex(out, self.0[3] as u64, 2);
        push_char(out, ':');
        push_hex(out, self.0[4] as u64, 2);
        push_char(out, ':');
        push_hex(out, self.0[5] as u64, 2);
        assert(out@ =~= old(out)@ + self.spec_text());
    }
}

impl EtherType {
    /// The protocol name of an EtherType.
    pub open spec fn spec_name(self) -> Seq<char> {
        match self {
            EtherType::Ipv4 => "IPv4"@,
            EtherType::Arp => "ARP"@,
            EtherType::Ipv6 => "IPv6"@,
            EtherType::Unknown(_) => "Unknown"@,
        }
    }

    /// The protocol name of an EtherType: "IPv4", "ARP", "IPv6" or
    /// "Unknown".
    pub fn name(&self) -> (n: &'static str)
        ensures
            n@ == self.spec_name(),
    {
        match self {
            Self::Ipv4 => "IPv4",
            Self::Arp => "ARP",
            Self::Ipv6 => "IPv6",
            Self::Unknown(_) => "Unknown",
        }
    }
}

impl EthernetError {
    /// The message of an error.
    pub open spec fn spec_text(self) -> Seq<char> {
        match self {
            EthernetError::BufferTooShortForHeader { expected, got } =>
                "Buffer too short for an Ethernet header: need at least "@ + dec_digits(expected as nat)
                + " bytes, got "@ + dec_digits(got as nat),
        }
    }

    /// Appends the message of the error.
    pub fn write_text(&self, out: &mut String)
        ensures
            final(out)@ == old(out)@ + self.spec_text(),
    {
        match self {
            Self::BufferTooShortForHeader { expected, got } => {
                push_str(out, "Buffer too short for an Ethernet header: need at least ");
                push_dec_usize(out, *expected);
                push_str(out, " bytes, got ");
                push_dec_usize(out, *got);
            },
        }
        assert(out@ =~= old(out)@ + self.spec_text());
    }
}

impl EthernetHeader {
    /// The header as three lines: destination, source and type.
    pub open spec fn spec_text(&self) -> Seq<char> {
        "Destination: ("@ + self.dst_mac.spec_text() + ")\n"@ + "Source: ("@ + self.src_mac.spec_text()
            + ")\n"@ + "Type: "@ + self.ethertype.spec_name() + " ("@ + prefixed_hex(
            spec_ether_type_value(self.ethertype) as nat,
            6,
        ) + ")\n"@
    }

    /// The one-line summary of the header: source, then destination.
    pub open spec fn spec_summary(&self) -> Seq<char> {
        "Ethernet II, Src: ("@ + self.src_mac.spec_text() + "), Dst: ("@ + self.dst_mac.spec_text() + ")"@
    }

    /// The one-line summary of the header, such as
    /// `Ethernet II, Src: (00:11:22:33:44:55), Dst: (ff:ff:ff:ff:ff:ff)`.
    pub fn summary(&self) -> (t: String)
        ensures
            t@ == self.spec_summary(),
    {
        let mut t = String::new();
        push_str(&mut t, "Ethernet II, Src: (");
        self.src_mac.write_text(&mut t);
        push_str(&mut t, "), Dst: (");
        self.dst_mac.write_text(&mut t);
        push_str(&mut t, ")");
        assert(t@ =~= self.spec_summary());
        t
    }

    /// The header as three lines: destination, source and type, the type
    /// with its value in hexadecimal.
    pub fn to_text(&self) -> (t: String)
        ensures
            t@ == self.spec_text(),
    {
        let mut t = String::new();
        self.write_text(&mut t);
        assert(t@ =~= self.spec_text());
        t
    }

    /// Appends the header as three lines: destination, source and type,
    /// the type with its value in hexadecimal.
    pub fn write_text(&self, out: &mut String)
        ensures
            final(out)@ == old(out)@ + self.spec_text(),
    {
        push_str(out, "Destination: (");
        self.dst_mac.write_text(out);
        push_str(out, ")\n");
        push_str(out, "Source: (");
        self.src_mac.write_text(out);
        push_str(out, ")\n");
        push_str(out, "Type: ");
        push_str(out, self.ethertype.name());
        push_str(out, " (");
        push_prefixed_hex(out, self.ethertype.value() as u64, 6);
        push_str(out, ")\n");
        assert(out@ =~= old(out)@ + self.spec_text());
    }
}

/// The name of the EtherType a raw value decodes to is that of its
/// protocol: "IPv4" for exactly 0x0800, "ARP" for exactly 0x0806, "IPv6"
/// for exactly 0x86DD, "Unknown" for every other value.
pub proof fn lemma_ether_type_name_is_its_protocol(v: u16)
    ensures
        spec_ether_type(v).spec_name() == "IPv4"@ <==> v == 0x0800,
        spec_ether_type(v).spec_name() == "ARP"@ <==> v == 0x0806,
        spec_ether_type(v).spec_name() == "IPv6"@ <==> v == 0x86DD,
        spec_ether_type(v).spec_name() == "Unknown"@ <==> (v != 0x0800 && v != 0x0806 && v != 0x86DD),
{
    reveal_strlit("IPv4");
    reveal_strlit("ARP");
    reveal_strlit("IPv6");
    reveal_strlit("Unknown");
    assert("IPv4"@.len() == 4 && "ARP"@.len() == 3 && "IPv6"@.len() == 4 && "Unknown"@.len() == 7);
    assert("IPv4"@[3] != "IPv6"@[3]);
}

/// Parsing splits the buffer without losing or moving a byte: the
/// destination address, the source address, the two bytes of the
/// EtherType's value, then the payload, give back the buffer.
pub proof fn lemma_header_and_payload_rebuild_the_frame(h: &EthernetHeader, payload: Seq<u8>, b: Seq<u8>)
    requires
        h.decodes(b),
        payload == ethernet_payload(b),
    ensures
        h.dst_mac.0@ + h.src_mac.0@ + seq![
            (spec_ether_type_value(h.ethertype) / 256) as u8,
            (spec_ether_type_value(h.ethertype) % 256) as u8,
        ] + payload == b,
{
    lemma_ether_type_roundtrip(be16(b[12], b[13]), h.ethertype);
    let v = spec_ether_type_value(h.ethertype);
    assert(v == b[12] * 256 + b[13]);
    assert(h.dst_mac.0@ + h.src_mac.0@ + seq![(v / 256) as u8, (v % 256) as u8] + payload =~= b);
}

} // verus!
