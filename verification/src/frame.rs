//! A dissected packet, represented as a layer tree.
//!
//! [`Frame`] is the root of the tree: an Ethernet II header and its
//! payload. Each payload is dispatched to the next layer according to the
//! protocol field of its parent layer.

use vstd::prelude::*;

use crate::bytes::len_usize;
use crate::errors::AppError;
use crate::layer2::ethernet::{ethernet_payload, EtherType, EthernetError, EthernetHeader};
use crate::layer3::icmp::message::{IcmpError, IcmpMessage};
use crate::layer3::ipv4::errors::Ipv4Error;
use crate::layer3::icmp::message::lemma_padding_is_ignored as lemma_message_padding_is_ignored;
use crate::layer3::ipv4::packet::{
    declared_header_length, lemma_fits_capture_iff, lemma_padding_is_ignored as lemma_datagram_padding_is_ignored,
    bytes_after_header, declared_payload_length, spec_ihl, spec_total_length, Ipv4Header, IPV4_VERSION,
};
use crate::layer3::ipv4::protocol::spec_ip_protocol;
use crate::layer3::ipv4::protocol::IpProtocol;
use crate::text::{dec_digits, dump_lines, push_char, push_dec_usize, push_dump, push_str};

verus! {

/// The payload of an IPv4 datagram, dispatched by its Protocol field.
#[derive(Debug)]
pub enum Ipv4Payload<'a> {
    /// An ICMP message, fully decoded.
    Icmp(IcmpMessage<'a>),
    /// The datagram is internally inconsistent, so the payload cannot be
    /// located reliably (invalid IHL or header longer than Total Length).
    Unlocatable,
    /// The datagram is internally consistent, but the capture does not
    /// contain enough bytes to reach or decode the payload.
    NotCaptured,
    /// A protocol (TCP, UDP, ...) not dissected by this parser yet.
    Unsupported(IpProtocol),
}

/// The payload of an Ethernet frame, dispatched by its EtherType field.
#[derive(Debug)]
pub enum EthernetPayload<'a> {
    /// An IPv4 datagram, containing its header and payload.
    Ipv4 {
        /// The decoded IPv4 header.
        header: Ipv4Header,
        /// The IPv4 datagram's payload.
        payload: Ipv4Payload<'a>,
    },
    /// An EtherType (ARP, IPv6, ...) not dissected by this parser yet.
    Unsupported(EtherType),
}

/// A dissected frame, containing the Ethernet header and its payload.
#[derive(Debug)]
pub struct Frame<'a> {
    /// The Ethernet II header.
    pub header: EthernetHeader,
    /// The Ethernet payload, dispatched by EtherType.
    pub payload: EthernetPayload<'a>,
}

impl<'a> Ipv4Payload<'a> {
    /// The payload is what `buf`, the bytes after the IPv4 header, holds for
    /// `protocol` and a declared payload of `payload_length` bytes: an ICMP
    /// message when at least its common header was captured.
    pub open spec fn decodes(&self, protocol: IpProtocol, payload_length: usize, buf: Seq<u8>) -> bool {
        match protocol {
            IpProtocol::Icmp => if buf.len() < 4 {
                *self is NotCaptured
            } else {
                *self matches Ipv4Payload::Icmp(m) && m.decodes(buf, payload_length)
            },
            _ => *self == Ipv4Payload::Unsupported(protocol),
        }
    }

    /// The payload is what the datagram `p` with header `h` carries: the
    /// payload is offered downstream only when the header locates it and
    /// the whole header was captured.
    pub open spec fn dissects(&self, h: &Ipv4Header, p: Seq<u8>) -> bool {
        if !h.spec_locates_payload() {
            *self is Unlocatable
        } else if !h.spec_header_fits_capture() {
            *self is NotCaptured
        } else {
            self.decodes(h.protocol, h.spec_payload_length(), h.payload_bytes(p))
        }
    }

    /// Dispatches the bytes after an IPv4 header by the header's Protocol
    /// field. A capture too short for the ICMP common header is reported
    /// as not captured.
    pub fn parse(protocol: IpProtocol, payload_length: usize, buf: &'a [u8]) -> (r: Self)
        ensures
            r.decodes(protocol, payload_length, buf@),
    {
        match protocol {
            IpProtocol::Icmp => match IcmpMessage::parse(buf, payload_length) {
                Ok(msg) => Self::Icmp(msg),
                Err(IcmpError::BufferTooShortForHeader { .. }) => Self::NotCaptured,
            },
            other => Self::Unsupported(other),
        }
    }
}

/// What parsing the bytes after an Ethernet header gives for an EtherType.
pub open spec fn spec_ethernet_payload_error(ethertype: EtherType, p: Seq<u8>) -> Option<AppError> {
    match ethertype {
        EtherType::Ipv4 => if p.len() < 20 {
            Some(
                AppError::Ipv4(
                    Ipv4Error::BufferTooShortForHeader { expected: 20, got: len_usize(p) },
                ),
            )
        } else if p[0] / 16 != IPV4_VERSION {
            Some(AppError::Ipv4(Ipv4Error::InvalidVersion { version: (p[0] / 16) as u8, raw: p[0] }))
        } else {
            None
        },
        _ => None,
    }
}

impl<'a> EthernetPayload<'a> {
    /// The payload is what the bytes `p` after the Ethernet header hold
    /// for `ethertype`, when that parses.
    pub open spec fn decodes(&self, ethertype: EtherType, p: Seq<u8>) -> bool {
        match ethertype {
            EtherType::Ipv4 => {
                &&& *self matches EthernetPayload::Ipv4 { header, payload }
                &&& header.decodes(p)
                &&& payload.dissects(&header, p)
            },
            _ => *self == EthernetPayload::Unsupported(ethertype),
        }
    }

    /// Dispatches the bytes after an Ethernet header by EtherType. IPv4
    /// headers are decoded; the payload of a datagram is offered to the
    /// next layer only when the header locates it and was fully captured.
    pub fn parse(ethertype: EtherType, buf: &'a [u8]) -> (r: Result<Self, AppError>)
        ensures
            match spec_ethernet_payload_error(ethertype, buf@) {
                Some(e) => r == Err::<Self, AppError>(e),
                None => r matches Ok(pl) && pl.decodes(ethertype, buf@),
            },
    {
        match ethertype {
            EtherType::Ipv4 => {
                let header = match Ipv4Header::parse(buf) {
                    Ok(h) => h,
                    Err(e) => return Err(AppError::Ipv4(e)),
                };
                let ipv4_payload = if !header.locates_payload() {
                    Ipv4Payload::Unlocatable
                } else if !header.header_fits_capture() {
                    Ipv4Payload::NotCaptured
                } else {
                    proof {
                        lemma_fits_capture_iff(&header, buf@);
                    }
                    let start = header.ihl as usize * 4;
                    let protocol = header.protocol;
                    let payload_length = header.payload_length();
                    Ipv4Payload::parse(protocol, payload_length, &buf[start..buf.len()])
                };
                Ok(Self::Ipv4 { header, payload: ipv4_payload })
            },
            other => Ok(Self::Unsupported(other)),
        }
    }
}

impl<'a> Frame<'a> {
    /// The frame is the dissection of the bytes `b`.
    pub open spec fn decodes(&self, b: Seq<u8>) -> bool {
        &&& self.header.decodes(b)
        &&& self.payload.decodes(self.header.ethertype, ethernet_payload(b))
    }

    /// The error that dissecting `b` halts with, if any: an Ethernet error
    /// for fewer than 14 bytes, else an IPv4 error for an IPv4 datagram too
    /// short for a header or of another version.
    pub open spec fn spec_parse_error(b: Seq<u8>) -> Option<AppError> {
        if b.len() < 14 {
            Some(AppError::Ethernet(EthernetError::BufferTooShortForHeader { expected: 14, got: len_usize(b) }))
        } else {
            spec_ethernet_payload_error(
                crate::layer2::ethernet::spec_ether_type(crate::bytes::be16(b[12], b[13])),
                ethernet_payload(b),
            )
        }
    }

    /// Parses a frame into a layer tree, starting with the Ethernet header.
    ///
    /// Fails exactly as [`Frame::spec_parse_error`] says; otherwise every
    /// layer of the tree is the decoding of its bytes.
    pub fn parse(buf: &'a [u8]) -> (r: Result<Self, AppError>)
        ensures
            match Self::spec_parse_error(buf@) {
                Some(e) => r == Err::<Self, AppError>(e),
                None => r matches Ok(f) && f.decodes(buf@),
            },
    {
        let (header, payload) = match EthernetHeader::parse(buf) {
            Ok(hp) => hp,
            Err(e) => return Err(AppError::Ethernet(e)),
        };
        let ethertype = header.ethertype;
        match EthernetPayload::parse(ethertype, payload) {
            Ok(p) => Ok(Self { header, payload: p }),
            Err(e) => Err(e),
        }
    }
}

/// A frame whose IPv4 datagram has a valid IHL, a header no longer than
/// Total Length, the whole declared header captured, Protocol 1 and at
/// least the 4 bytes of the ICMP common header captured after the header
/// descends to ICMP: its payload is the ICMP message decoded from the
/// captured bytes after the header, bounded by the declared payload
/// length, whether or not the capture holds every declared byte.
pub proof fn lemma_captured_icmp_is_decoded(f: &Frame, b: Seq<u8>)
    requires
        f.decodes(b),
        b.len() >= 14,
        b[12] == 0x08,
        b[13] == 0x00,
        ethernet_payload(b).len() >= 20,
        ethernet_payload(b)[0] / 16 == 4,
        ethernet_payload(b)[0] % 16 >= 5,
        (ethernet_payload(b)[0] % 16) * 4 <= spec_total_length(ethernet_payload(b)),
        ethernet_payload(b)[9] == 1,
        ethernet_payload(b).len() >= (ethernet_payload(b)[0] % 16) * 4 + 4,
    ensures
        f.payload matches EthernetPayload::Ipv4 { payload: Ipv4Payload::Icmp(m), .. } && m.decodes(
            bytes_after_header(ethernet_payload(b)),
            declared_payload_length(ethernet_payload(b)),
        ),
{
    let p = ethernet_payload(b);
    assert(crate::bytes::be16(b[12], b[13]) == 0x0800);
    if let EthernetPayload::Ipv4 { header, payload } = f.payload {
        lemma_fits_capture_iff(&header, p);
        assert(header.payload_bytes(p) =~= bytes_after_header(p));
    }
}

/// A frame halts exactly when it is shorter than the 14-byte Ethernet
/// header, or when it carries IPv4 (EtherType 0x0800) and the datagram is
/// shorter than a 20-byte header or not of version 4.
pub proof fn lemma_frame_halts_only_below_ipv4(b: Seq<u8>)
    ensures
        Frame::spec_parse_error(b) is Some <==> (b.len() < 14 || (b[12] == 0x08 && b[13] == 0x00 && (
        b.len() < 34 || b[14] / 16 != 4))),
{
    if b.len() >= 14 {
        let p = ethernet_payload(b);
        assert(crate::bytes::be16(b[12], b[13]) == 0x0800 <==> (b[12] == 0x08 && b[13] == 0x00));
        if p.len() >= 1 {
            assert(p[0] == b[14]);
        }
    }
}

/// Which way an IPv4 datagram's payload goes is decided by its bytes: it is
/// unlocatable exactly when the IHL is below 5 or declares more bytes than
/// Total Length; otherwise it is not captured exactly when the capture ends
/// inside the declared header, or, for Protocol 1, before the 4 bytes of
/// the ICMP common header; otherwise it is ICMP for Protocol 1 and not
/// dissected for any other protocol.
pub proof fn lemma_payload_dispatch(f: &Frame, b: Seq<u8>)
    requires
        f.decodes(b),
        b[12] == 0x08,
        b[13] == 0x00,
    ensures
        ({
            let p = ethernet_payload(b);
            let ihl = p[0] % 16;
            let total = p[2] * 256 + p[3];
            let located = ihl >= 5 && ihl * 4 <= total;
            &&& f.payload matches EthernetPayload::Ipv4 { payload, .. }
            &&& (payload is Unlocatable <==> !located)
            &&& (payload is NotCaptured <==> located && (p.len() < ihl * 4 || (p[9] == 1 && p.len()
                < ihl * 4 + 4)))
            &&& (payload is Icmp <==> located && p[9] == 1 && p.len() >= ihl * 4 + 4)
            &&& (payload is Unsupported <==> located && p[9] != 1 && p.len() >= ihl * 4)
        }),
{
    let p = ethernet_payload(b);
    assert(crate::bytes::be16(b[12], b[13]) == 0x0800);
    if let EthernetPayload::Ipv4 { header, payload } = f.payload {
        lemma_fits_capture_iff(&header, p);
        if header.spec_locates_payload() && header.spec_header_fits_capture() {
            assert(header.payload_bytes(p).len() == p.len() - p[0] % 16 * 4);
        }
    }
}

/// The bytes after a locating IPv4 header of datagram `p`, when that
/// header declares an ICMP message, number fewer than the 4 bytes of the
/// ICMP common header.
pub open spec fn message_header_uncaptured(p: Seq<u8>) -> bool {
    let ihl = spec_ihl(p);
    &&& spec_ip_protocol(p[9]) == IpProtocol::Icmp
    &&& ihl >= 5
    &&& ihl * 4 <= spec_total_length(p)
    &&& p.len() < ihl * 4 + 4
}

/// Bytes captured past the end of a fully captured IPv4 datagram (such as
/// Ethernet padding) change nothing of the dissection: the frame halts
/// with the same error or decodes to the same tree. Left out are an IPv4
/// datagram shorter than a header, whose error reports the captured
/// length, and an ICMP message shorter than its common header that the
/// padding would complete.
pub proof fn lemma_frame_padding_is_ignored(f: &Frame, b: Seq<u8>, padding: Seq<u8>)
    requires
        b.len() >= 14,
        ({
            let p = ethernet_payload(b);
            crate::layer2::ethernet::spec_ether_type(crate::bytes::be16(b[12], b[13])) == EtherType::Ipv4
                ==> {
                &&& p.len() < 20 ==> padding.len() == 0
                &&& p.len() >= 20 && p[0] / 16 == IPV4_VERSION ==> {
                    &&& p.len() >= spec_total_length(p)
                    &&& p.len() >= declared_header_length(spec_ihl(p))
                    &&& !(message_header_uncaptured(p) && !message_header_uncaptured(p + padding))
                }
            }
        }),
    ensures
        Frame::spec_parse_error(b + padding) == Frame::spec_parse_error(b),
        f.decodes(b + padding) <==> f.decodes(b),
{
    let bp = b + padding;
    let p = ethernet_payload(b);
    let pp = ethernet_payload(bp);
    assert(pp =~= p + padding);
    assert forall|i: int| 0 <= i < 14 implies bp[i] == b[i] by {}
    assert forall|i: int| 0 <= i < p.len() implies pp[i] == p[i] by {}
    assert(bp.subrange(0, 6) =~= b.subrange(0, 6));
    assert(bp.subrange(6, 12) =~= b.subrange(6, 12));
    if p.len() < 20 {
        assert(padding.len() == 0 ==> bp =~= b);
    }
    let ipv4 = crate::layer2::ethernet::spec_ether_type(crate::bytes::be16(b[12], b[13])) == EtherType::Ipv4;
    if ipv4 && p.len() >= 20 && p[0] / 16 == IPV4_VERSION {
        if let EthernetPayload::Ipv4 { header, payload } = f.payload {
            lemma_datagram_padding_is_ignored(&header, p, padding);
            if header.decodes(p) {
                if header.spec_locates_payload() && header.spec_header_fits_capture() {
                    let pb = header.payload_bytes(p);
                    lemma_fits_capture_iff(&header, p);
                    assert(header.payload_bytes(pp) =~= pb + padding);
                    if pb.len() >= 4 {
                        lemma_message_padding_is_ignored_all(
                            payload,
                            pb,
                            padding,
                            header.spec_payload_length(),
                        );
                    } else if header.protocol == IpProtocol::Icmp {
                        assert(message_header_uncaptured(p));
                        assert(message_header_uncaptured(pp));
                    }
                }
            }
        }
    }
}

proof fn lemma_message_padding_is_ignored_all(
    payload: Ipv4Payload,
    pb: Seq<u8>,
    padding: Seq<u8>,
    payload_length: usize,
)
    requires
        pb.len() >= 4,
        pb.len() >= payload_length,
    ensures
        forall|protocol: IpProtocol|
            payload.decodes(protocol, payload_length, pb + padding) <==> payload.decodes(
                protocol,
                payload_length,
                pb,
            ),
{
    if let Ipv4Payload::Icmp(m) = payload {
        lemma_message_padding_is_ignored(&m, pb, padding, payload_length);
    }
}

impl<'a> Ipv4Payload<'a> {
    /// The text of an IPv4 payload.
    pub open spec fn spec_text(&self) -> Seq<char> {
        match *self {
            Ipv4Payload::Icmp(message) => message.spec_text(),
            Ipv4Payload::Unlocatable => "payload not dissected: unlocatable\n"@,
            Ipv4Payload::NotCaptured => "payload not captured\n"@,
            Ipv4Payload::Unsupported(protocol) => protocol.spec_name() + ": not dissected yet\n"@,
        }
    }

    /// Appends the text of the payload: the decoded message, or one line
    /// saying why there is none.
    pub fn write_text(&self, out: &mut String)
        ensures
            final(out)@ == old(out)@ + self.spec_text(),
    {
        match self {
            Self::Icmp(message) => message.write_text(out),
            Self::Unlocatable => push_str(out, "payload not dissected: unlocatable\n"),
            Self::NotCaptured => push_str(out, "payload not captured\n"),
            Self::Unsupported(protocol) => {
                push_str(out, protocol.name());
                push_str(out, ": not dissected yet\n");
            },
        }
        assert(out@ =~= old(out)@ + self.spec_text());
    }
}

impl<'a> EthernetPayload<'a> {
    /// The text of an Ethernet payload.
    pub open spec fn spec_text(&self) -> Seq<char> {
        match *self {
            EthernetPayload::Ipv4 { header, payload } => header.spec_text() + "\n"@ + payload.spec_text(),
            EthernetPayload::Unsupported(ethertype) => ethertype.spec_name() + ": not dissected yet\n"@,
        }
    }

    /// Appends the text of the payload: the IPv4 header, a blank line and
    /// its payload, or one line for an EtherType not dissected.
    pub fn write_text(&self, out: &mut String)
        ensures
            final(out)@ == old(out)@ + self.spec_text(),
    {
        match self {
            Self::Ipv4 { header, payload } => {
                header.write_text(out);
                push_str(out, "\n");
                payload.write_text(out);
            },
            Self::Unsupported(ethertype) => {
                push_str(out, ethertype.name());
                push_str(out, ": not dissected yet\n");
            },
        }
        assert(out@ =~= old(out)@ + self.spec_text());
    }
}

impl<'a> Frame<'a> {
    /// The text of the frame: each layer in turn, separated by blank lines.
    pub open spec fn spec_text(&self) -> Seq<char> {
        self.header.spec_text() + "\n"@ + self.payload.spec_text()
    }

    /// Appends the text of the frame: each layer in turn, separated by
    /// blank lines.
    pub fn write_text(&self, out: &mut String)
        ensures
            final(out)@ == old(out)@ + self.spec_text(),
    {
        self.header.write_text(out);
        push_str(out, "\n");
        self.payload.write_text(out);
        assert(out@ =~= old(out)@ + self.spec_text());
    }

    /// The text of the frame: each layer in turn, separated by blank lines.
    pub fn to_text(&self) -> (t: String)
        ensures
            t@ == self.spec_text(),
    {
        let mut t = String::new();
        self.write_text(&mut t);
        assert(t@ =~= self.spec_text());
        t
    }
}

/// The raw bytes of a captured frame: its size in bytes and bits, a hex
/// dump with the two halves of each line apart, then a blank line.
pub open spec fn spec_packet_dump(packet: Seq<u8>) -> Seq<char> {
    "Frame: "@ + dec_digits(packet.len()) + " bytes ("@ + dec_digits(8 * packet.len()) + " bits):\n"@
        + dump_lines(packet, 0, true) + "\n"@
}

/// The raw bytes of a captured frame: its size in bytes and bits, a hex
/// dump, sixteen bytes a line with the two halves apart, then a blank line.
pub fn packet_dump(packet: &[u8]) -> (t: String)
    requires
        8 * packet@.len() <= usize::MAX,
    ensures
        t@ == spec_packet_dump(packet@),
{
    let mut t = String::new();
    push_str(&mut t, "Frame: ");
    push_dec_usize(&mut t, packet.len());
    push_str(&mut t, " bytes (");
    push_dec_usize(&mut t, 8 * packet.len());
    push_str(&mut t, " bits):\n");
    push_dump(&mut t, packet, true);
    push_char(&mut t, '\n');
    assert("\n"@ == seq!['\n']) by {
        reveal_strlit("\n");
    }
    assert(t@ =~= spec_packet_dump(packet@));
    t
}

} // verus!
