//! The IPv4 header.
//!
//! Unlike Ethernet, IPv4 has a variable-length header: normally 20 bytes,
//! up to 60 with options. Where the payload begins is known only from the
//! IHL field, and the datagram's extent only from Total Length. A header
//! that contradicts itself or the capture is still dissected; every
//! contradiction is recorded as an anomaly.

use vstd::prelude::*;

use crate::bytes::{be16, read_be16};
use crate::checksum::{lemma_filled_checksum_verifies, spec_checksum, spec_verify, verify, ChecksumStatus};
use crate::layer3::ipv4::anomalies::Ipv4Anomaly;
use crate::layer3::ipv4::errors::Ipv4Error;
use crate::layer3::ipv4::flags::{lemma_flags_roundtrip, IpFlags};
use crate::layer3::ipv4::protocol::{
    lemma_ip_protocol_roundtrip, spec_ip_protocol, spec_ip_protocol_value, IpProtocol,
};

verus! {

/// IHL is counted in 32-bit words: 5 words × 4 bytes = 20 bytes minimum.
pub const MIN_HEADER_LENGTH: usize = 20;

/// The smallest valid IHL.
pub const MIN_IHL_VALUE: u8 = 5;

/// The only version this parser accepts.
pub const IPV4_VERSION: u8 = 4;

/// An IPv4 address, as its four octets in network order.
#[derive(Debug, Clone, Copy, PartialEq, Eq)]
pub struct Ipv4Address(pub [u8; 4]);

impl Ipv4Address {
    /// The address `a.b.c.d`.
    pub fn new(a: u8, b: u8, c: u8, d: u8) -> (addr: Self)
        ensures
            addr.0@ == seq![a, b, c, d],
    {
        let addr = Ipv4Address([a, b, c, d]);
        assert(addr.0@ =~= seq![a, b, c, d]);
        addr
    }

    /// The four octets of the address.
    pub fn octets(&self) -> (o: [u8; 4])
        ensures
            o@ == self.0@,
    {
        self.0
    }
}

/// The IHL nibble of a header.
pub open spec fn spec_ihl(b: Seq<u8>) -> u8 {
    (b[0] % 16) as u8
}

/// The header length the IHL declares, in bytes; an IHL below the minimum
/// is taken as the minimum 20 bytes.
pub open spec fn declared_header_length(ihl: u8) -> int {
    if ihl < MIN_IHL_VALUE {
        MIN_HEADER_LENGTH as int
    } else {
        ihl * 4
    }
}

/// The Total Length field of a header.
pub open spec fn spec_total_length(b: Seq<u8>) -> u16 {
    be16(b[2], b[3])
}

/// The 16-bit word holding Flags (top 3 bits) and Fragment Offset.
pub open spec fn spec_flags_word(b: Seq<u8>) -> u16 {
    be16(b[6], b[7])
}

/// The bytes of datagram `p` that follow the header its IHL declares.
pub open spec fn bytes_after_header(p: Seq<u8>) -> Seq<u8> {
    p.subrange(spec_ihl(p) * 4, p.len() as int)
}

/// The payload length datagram `p` declares: Total Length less the header
/// length its IHL declares.
pub open spec fn declared_payload_length(p: Seq<u8>) -> usize {
    (spec_total_length(p) - spec_ihl(p) * 4) as usize
}

/// Every anomaly a header of at least 20 bytes shows, in the order they
/// are detected: invalid IHL, header longer than the capture, header
/// longer than Total Length, Total Length beyond the capture, reserved
/// flag set.
pub open spec fn spec_ipv4_anomalies(b: Seq<u8>) -> Seq<Ipv4Anomaly> {
    let ihl = spec_ihl(b);
    let declared = declared_header_length(ihl);
    let total = spec_total_length(b);
    let a0: Seq<Ipv4Anomaly> = if ihl < MIN_IHL_VALUE {
        seq![Ipv4Anomaly::InvalidIhl(ihl)]
    } else {
        seq![]
    };
    let a1 = if b.len() < declared {
        a0.push(
            Ipv4Anomaly::HeaderLongerThanCapture {
                captured: b.len() as usize,
                declared: declared as usize,
            },
        )
    } else {
        a0
    };
    let a2 = if declared > total {
        a1.push(
            Ipv4Anomaly::HeaderExceedsTotalLength {
                header_length: declared as usize,
                total_length: total as usize,
            },
        )
    } else {
        a1
    };
    let a3 = if b.len() < total {
        a2.push(Ipv4Anomaly::TotalLengthExceedsCapture { captured: b.len() as usize })
    } else {
        a2
    };
    if IpFlags::spec_parse((spec_flags_word(b) / 8192) as u8).reserved {
        a3.push(Ipv4Anomaly::ReservedFlagSet)
    } else {
        a3
    }
}

/// Whether the header checksum verifies: only a header with a valid IHL
/// whose declared bytes were all captured can be checked, over exactly
/// those bytes.
pub open spec fn spec_ipv4_checksum_status(b: Seq<u8>) -> ChecksumStatus {
    let ihl = spec_ihl(b);
    if ihl < MIN_IHL_VALUE || b.len() < ihl * 4 {
        ChecksumStatus::NotVerifiable
    } else {
        spec_verify(b.subrange(0, ihl * 4))
    }
}

/// The decoded fields of an IPv4 packet header.
#[derive(Debug)]
pub struct Ipv4Header {
    /// IP version. Always 4 for this parser (enforced during `parse`).
    pub version: u8,
    /// Internet Header Length, in 32-bit words (minimum 5 = 20 bytes).
    pub ihl: u8,
    /// Differentiated Services Code Point (6 bits of the DS field).
    pub dscp: u8,
    /// Explicit Congestion Notification (2 bits of the DS field).
    pub ecn: u8,
    /// Total length of the IP packet (header + payload), in bytes.
    pub total_length: u16,
    /// Identifies fragments belonging to the same datagram before fragmentation.
    pub identification: u16,
    /// The 3-bit control flags (reserved, don't-fragment, more-fragments).
    pub flags: IpFlags,
    /// Offset of this fragment within the unfragmented datagram, in 8-byte units.
    pub fragment_offset: u16,
    /// Time to Live: max hops before the packet is discarded.
    pub ttl: u8,
    /// The payload protocol (ICMP, TCP, UDP, or unknown).
    pub protocol: IpProtocol,
    /// Header checksum, for error-checking the header only.
    pub header_checksum: u16,
    /// Source IPv4 address.
    pub source_address: Ipv4Address,
    /// Destination IPv4 address.
    pub destination_address: Ipv4Address,
    /// Whether the header checksum verified during `parse`.
    pub checksum_status: ChecksumStatus,
    /// Protocol-level anomalies detected during parsing.
    pub anomalies: Vec<Ipv4Anomaly>,
}

impl Ipv4Header {
    /// The header is what the bytes `b` (at least 20 of them, version 4)
    /// encode.
    pub open spec fn decodes(&self, b: Seq<u8>) -> bool {
        &&& b.len() >= MIN_HEADER_LENGTH
        &&& self.version == IPV4_VERSION
        &&& b[0] / 16 == IPV4_VERSION
        &&& self.ihl == spec_ihl(b)
        &&& self.dscp == b[1] / 4
        &&& self.ecn == b[1] % 4
        &&& self.total_length == spec_total_length(b)
        &&& self.identification == be16(b[4], b[5])
        &&& self.flags == IpFlags::spec_parse((spec_flags_word(b) / 8192) as u8)
        &&& self.fragment_offset == spec_flags_word(b) % 8192
        &&& self.ttl == b[8]
        &&& self.protocol == spec_ip_protocol(b[9])
        &&& self.header_checksum == be16(b[10], b[11])
        &&& self.source_address.0@ == b.subrange(12, 16)
        &&& self.destination_address.0@ == b.subrange(16, 20)
        &&& self.checksum_status == spec_ipv4_checksum_status(b)
        &&& self.anomalies@ == spec_ipv4_anomalies(b)
    }

    /// Parses an IPv4 header from its raw bytes.
    ///
    /// Fails only when fewer than 20 bytes are given or the version is not
    /// 4; every other inconsistency is recorded in `anomalies`.
    pub fn parse(buf: &[u8]) -> (r: Result<Self, Ipv4Error>)
        ensures
            buf@.len() < MIN_HEADER_LENGTH ==> r == Err::<Self, Ipv4Error>(
                Ipv4Error::BufferTooShortForHeader {
                    expected: MIN_HEADER_LENGTH,
                    got: buf@.len() as usize,
                },
            ),
            buf@.len() >= MIN_HEADER_LENGTH && buf@[0] / 16 != IPV4_VERSION ==> r == Err::<
                Self,
                Ipv4Error,
            >(Ipv4Error::InvalidVersion { version: (buf@[0] / 16) as u8, raw: buf@[0] }),
            buf@.len() >= MIN_HEADER_LENGTH && buf@[0] / 16 == IPV4_VERSION ==> (r matches Ok(h)
                && h.decodes(buf@)),
    {
        let buf_length = buf.len();
        if buf_length < MIN_HEADER_LENGTH {
            return Err(
                Ipv4Error::BufferTooShortForHeader { expected: MIN_HEADER_LENGTH, got: buf_length },
            );
        }
        // Byte 0: version (high nibble) and IHL (low nibble).
        let b0 = buf[0];
        let version = b0 / 16;
        if version != IPV4_VERSION {
            return Err(Ipv4Error::InvalidVersion { version, raw: b0 });
        }
        let ihl = b0 % 16;
        let ghost b = buf@;
        let mut anomalies: Vec<Ipv4Anomaly> = Vec::new();
        // IHL counts 4-byte words; below 5 it cannot describe a header.
        let declared: usize = if ihl < MIN_IHL_VALUE {
            anomalies.push(Ipv4Anomaly::InvalidIhl(ihl));
            MIN_HEADER_LENGTH
        } else {
            (ihl as usize) * 4
        };
        if buf_length < declared {
            anomalies.push(
                Ipv4Anomaly::HeaderLongerThanCapture { captured: buf_length, declared },
            );
        }
        // Byte 1: DSCP (6 high bits) and ECN (2 low bits).
        let b1 = buf[1];
        let dscp = b1 / 4;
        let ecn = b1 % 4;
        // Bytes 2..=3: Total Length. The header cannot be larger than the
        // datagram it is part of.
        let total_length = read_be16(buf[2], buf[3]);
        if declared > total_length as usize {
            anomalies.push(
                Ipv4Anomaly::HeaderExceedsTotalLength {
                    header_length: declared,
                    total_length: total_length as usize,
                },
            );
        }
        if buf_length < total_length as usize {
            anomalies.push(Ipv4Anomaly::TotalLengthExceedsCapture { captured: buf_length });
        }
        // Bytes 4..=5: identification.
        let identification = read_be16(buf[4], buf[5]);
        // Bytes 6..=7: flags (3 high bits) and fragment offset (13 bits).
        let word = read_be16(buf[6], buf[7]);
        let raw_flags = (word / 8192) as u8;
        let flags = IpFlags::parse(raw_flags);
        if flags.is_anomalous() {
            anomalies.push(Ipv4Anomaly::ReservedFlagSet);
        }
        let fragment_offset = word % 8192;
        // Bytes 8..=11: TTL, protocol, header checksum.
        let ttl = buf[8];
        let protocol = IpProtocol::from(buf[9]);
        let header_checksum = read_be16(buf[10], buf[11]);
        // Bytes 12..=19: source and destination addresses.
        let source_address = Ipv4Address::new(buf[12], buf[13], buf[14], buf[15]);
        let destination_address = Ipv4Address::new(buf[16], buf[17], buf[18], buf[19]);
        let checksum_status = if ihl < MIN_IHL_VALUE || buf_length < declared {
            ChecksumStatus::NotVerifiable
        } else {
            verify(&buf[0..declared])
        };
        assert(source_address.0@ =~= b.subrange(12, 16));
        assert(destination_address.0@ =~= b.subrange(16, 20));
        assert(anomalies@ =~= spec_ipv4_anomalies(b));
        Ok(
            Self {
                version,
                ihl,
                dscp,
                ecn,
                total_length,
                identification,
                flags,
                fragment_offset,
                ttl,
                protocol,
                header_checksum,
                source_address,
                destination_address,
                checksum_status,
                anomalies,
            },
        )
    }

    /// The header locates its payload: the IHL is valid and the declared
    /// header fits inside the declared datagram.
    pub open spec fn spec_locates_payload(&self) -> bool {
        self.ihl >= MIN_IHL_VALUE && self.ihl * 4 <= self.total_length
    }

    /// Whether the header is internally consistent enough to say where the
    /// payload starts and ends.
    pub fn locates_payload(&self) -> (b: bool)
        ensures
            b == self.spec_locates_payload(),
    {
        self.ihl >= MIN_IHL_VALUE && (self.ihl as u16) * 4 <= self.total_length
    }

    /// No anomaly says that the declared header runs past the capture.
    pub open spec fn spec_header_fits_capture(&self) -> bool {
        forall|i: int|
            0 <= i < self.anomalies@.len() ==> !(#[trigger] self.anomalies@[i] is HeaderLongerThanCapture)
    }

    /// Whether all bytes of the declared header were captured.
    pub fn header_fits_capture(&self) -> (b: bool)
        ensures
            b == self.spec_header_fits_capture(),
    {
        let n = self.anomalies.len();
        let mut i: usize = 0;
        while i < n
            invariant
                n == self.anomalies@.len(),
                i <= n,
                forall|j: int|
                    0 <= j < i ==> !(#[trigger] self.anomalies@[j] is HeaderLongerThanCapture),
            decreases n - i,
        {
            if let Ipv4Anomaly::HeaderLongerThanCapture { .. } = self.anomalies[i] {
                return false;
            }
            i = i + 1;
        }
        true
    }

    /// The payload length a locating header declares.
    pub open spec fn spec_payload_length(&self) -> usize {
        (self.total_length - self.ihl * 4) as usize
    }

    /// The bytes of datagram `b` that follow the declared header.
    pub open spec fn payload_bytes(&self, b: Seq<u8>) -> Seq<u8> {
        b.subrange(self.ihl * 4, b.len() as int)
    }

    /// The number of payload bytes the header declares: Total Length less
    /// the header length.
    pub fn payload_length(&self) -> (n: usize)
        requires
            self.spec_locates_payload(),
        ensures
            n == self.total_length - self.ihl * 4,
            n == self.spec_payload_length(),
    {
        (self.total_length as usize) - (self.ihl as usize) * 4
    }
}

/// For a decoded header, fitting the capture means the captured bytes
/// hold the whole declared header.
pub proof fn lemma_fits_capture_iff(h: &Ipv4Header, b: Seq<u8>)
    requires
        h.decodes(b),
    ensures
        h.spec_header_fits_capture() <==> b.len() >= declared_header_length(h.ihl),
{
    let a = spec_ipv4_anomalies(b);
    if b.len() < declared_header_length(h.ihl) {
        let k: int = if h.ihl < MIN_IHL_VALUE { 1 } else { 0 };
        assert(a[k] is HeaderLongerThanCapture);
    } else {
        assert forall|i: int| 0 <= i < a.len() implies !(#[trigger] a[i] is HeaderLongerThanCapture) by {
        }
    }
}

/// Bytes captured past the end of the declared datagram (such as Ethernet
/// padding) are not an anomaly: they change nothing of what the header
/// decodes to, as long as the whole declared header and datagram were
/// captured.
pub proof fn lemma_padding_is_ignored(h: &Ipv4Header, b: Seq<u8>, padding: Seq<u8>)
    requires
        b.len() >= MIN_HEADER_LENGTH,
        b.len() >= spec_total_length(b),
        b.len() >= declared_header_length(spec_ihl(b)),
    ensures
        h.decodes(b + padding) <==> h.decodes(b),
{
    let bp = b + padding;
    assert(bp.subrange(0, 20) =~= b.subrange(0, 20));
    assert forall|i: int| 0 <= i < 20 implies bp[i] == b[i] by {}
    assert(bp.subrange(12, 16) =~= b.subrange(12, 16));
    assert(bp.subrange(16, 20) =~= b.subrange(16, 20));
    assert(spec_ipv4_anomalies(bp) =~= spec_ipv4_anomalies(b));
    let ihl = spec_ihl(b);
    if ihl >= MIN_IHL_VALUE {
        assert(bp.subrange(0, ihl * 4) =~= b.subrange(0, ihl * 4));
    }
}

/// The header checksum covers the whole declared header, options
/// included: it cannot be verified exactly when the IHL is invalid or the
/// capture is shorter than IHL × 4 bytes, and otherwise it is Good exactly
/// when the Internet checksum of the first IHL × 4 bytes is zero.
pub proof fn lemma_header_checksum_covers_declared_header(h: &Ipv4Header, b: Seq<u8>)
    requires
        h.decodes(b),
    ensures
        h.checksum_status == ChecksumStatus::NotVerifiable <==> (b[0] % 16 < 5 || b.len() < (b[0]
            % 16) * 4),
        b[0] % 16 >= 5 && b.len() >= (b[0] % 16) * 4 ==> (h.checksum_status == ChecksumStatus::Good
            <==> spec_checksum(b.take((b[0] % 16) * 4)) == 0),
        b[0] % 16 >= 5 && b.len() >= (b[0] % 16) * 4 ==> (h.checksum_status == ChecksumStatus::Bad
            <==> spec_checksum(b.take((b[0] % 16) * 4)) != 0),
{
    let ihl = spec_ihl(b);
    if ihl >= MIN_IHL_VALUE && b.len() >= ihl * 4 {
        assert(b.subrange(0, ihl * 4) =~= b.take(ihl * 4));
    }
}

/// A sender fills the zeroed checksum field (bytes 10 and 11) of a header
/// with the Internet checksum of its IHL × 4 bytes, options included; a
/// receiver that parses the result finds the checksum Good.
pub proof fn lemma_filled_header_parses_good(h: &Ipv4Header, z: Seq<u8>)
    requires
        z.len() >= MIN_HEADER_LENGTH,
        z[0] % 16 >= 5,
        z.len() >= (z[0] % 16) * 4,
        z[10] == 0,
        z[11] == 0,
        h.decodes(
            z.update(10, (spec_checksum(z.take((z[0] % 16) * 4)) / 256) as u8).update(
                11,
                (spec_checksum(z.take((z[0] % 16) * 4)) % 256) as u8,
            ),
        ),
    ensures
        h.checksum_status == ChecksumStatus::Good,
{
    let n = (z[0] % 16) * 4;
    let zh = z.take(n);
    let c = spec_checksum(zh);
    let b = z.update(10, (c / 256) as u8).update(11, (c % 256) as u8);
    lemma_filled_checksum_verifies(zh, 10);
    assert(b.take(n) =~= zh.update(10, (c / 256) as u8).update(11, (c % 256) as u8));
    assert(b[0] == z[0]);
    lemma_header_checksum_covers_declared_header(h, b);
}

/// Every contradiction a header tells is reported, once, and nothing
/// else is: an IHL below 5 (with that IHL); a declared header (IHL × 4
/// bytes, 20 for an invalid IHL) longer than the capture; a declared
/// header longer than Total Length, with the declared (not the captured)
/// length; a Total Length beyond the capture; the reserved flag set (the
/// top bit of byte 6).
pub proof fn lemma_anomalies_report_every_contradiction(h: &Ipv4Header, b: Seq<u8>)
    requires
        h.decodes(b),
    ensures
        ({
            let ihl = b[0] % 16;
            let declared = if ihl < 5 { 20 } else { ihl * 4 };
            let total = b[2] * 256 + b[3];
            let a = h.anomalies@;
            &&& a.contains(Ipv4Anomaly::InvalidIhl(ihl as u8)) <==> ihl < 5
            &&& (exists|i: int| 0 <= i < a.len() && a[i] is InvalidIhl) <==> ihl < 5
            &&& a.contains(
                Ipv4Anomaly::HeaderLongerThanCapture {
                    captured: b.len() as usize,
                    declared: declared as usize,
                },
            ) <==> b.len() < declared
            &&& (exists|i: int| 0 <= i < a.len() && a[i] is HeaderLongerThanCapture) <==> b.len()
                < declared
            &&& a.contains(
                Ipv4Anomaly::HeaderExceedsTotalLength {
                    header_length: declared as usize,
                    total_length: total as usize,
                },
            ) <==> declared > total
            &&& (exists|i: int| 0 <= i < a.len() && a[i] is HeaderExceedsTotalLength) <==> declared
                > total
            &&& a.contains(Ipv4Anomaly::TotalLengthExceedsCapture { captured: b.len() as usize })
                <==> b.len() < total
            &&& (exists|i: int| 0 <= i < a.len() && a[i] is TotalLengthExceedsCapture) <==> b.len()
                < total
            &&& a.contains(Ipv4Anomaly::ReservedFlagSet) <==> b[6] >= 128
            &&& a.len() == (if ihl < 5 { 1int } else { 0 }) + (if b.len() < declared { 1int } else { 0 })
                + (if declared > total { 1int } else { 0 }) + (if b.len() < total { 1int } else { 0 })
                + (if b[6] >= 128 { 1int } else { 0 })
        }),
{
    let ihl = spec_ihl(b);
    let w = spec_flags_word(b);
    let raw = (w / 8192) as u8;
    assert(w / 8192 == b[6] / 32);
    assert(raw & 4 != 0 <==> raw >= 4) by (bit_vector)
        requires
            raw < 8,
    ;
    let a = h.anomalies@;
    assert forall|x: Ipv4Anomaly| a.contains(x) implies (
        (x is InvalidIhl ==> ihl < 5 && x == Ipv4Anomaly::InvalidIhl(ihl))
        && (x is HeaderLongerThanCapture ==> b.len() < declared_header_length(ihl))
        && (x is HeaderExceedsTotalLength ==> declared_header_length(ihl) > spec_total_length(b))
        && (x is TotalLengthExceedsCapture ==> b.len() < spec_total_length(b))
        && (x is ReservedFlagSet ==> b[6] >= 128)) by {
        let i = choose|i: int| 0 <= i < a.len() && a[i] == x;
    }
    let declared = declared_header_length(ihl);
    let total = spec_total_length(b);
    if ihl < 5 {
        assert(a[0] == Ipv4Anomaly::InvalidIhl(ihl));
    }
    let k1: int = if ihl < 5 { 1 } else { 0 };
    if b.len() < declared {
        assert(a[k1] == Ipv4Anomaly::HeaderLongerThanCapture { captured: b.len() as usize, declared: declared as usize });
    }
    let k2: int = k1 + if b.len() < declared { 1int } else { 0 };
    if declared > total {
        assert(a[k2] == Ipv4Anomaly::HeaderExceedsTotalLength { header_length: declared as usize, total_length: total as usize });
    }
    let k3: int = k2 + if declared > total { 1int } else { 0 };
    if b.len() < total {
        assert(a[k3] == Ipv4Anomaly::TotalLengthExceedsCapture { captured: b.len() as usize });
    }
    let k4: int = k3 + if b.len() < total { 1int } else { 0 };
    if b[6] >= 128 {
        assert(a[k4] == Ipv4Anomaly::ReservedFlagSet);
    }
}

impl Ipv4Header {
    /// The first 20 bytes that the decoded fields pack back into, in
    /// network order.
    pub open spec fn spec_fixed_bytes(&self) -> Seq<u8> {
        let word = self.flags.spec_as_byte() * 8192 + self.fragment_offset;
        seq![
            (self.version * 16 + self.ihl) as u8,
            (self.dscp * 4 + self.ecn) as u8,
            (self.total_length / 256) as u8,
            (self.total_length % 256) as u8,
            (self.identification / 256) as u8,
            (self.identification % 256) as u8,
            (word / 256) as u8,
            (word % 256) as u8,
            self.ttl,
            spec_ip_protocol_value(self.protocol),
            (self.header_checksum / 256) as u8,
            (self.header_checksum % 256) as u8,
        ] + self.source_address.0@ + self.destination_address.0@
    }
}

/// Decoding loses and moves no bit of the fixed header: packing the
/// decoded fields back in network order gives the first 20 bytes.
pub proof fn lemma_fields_rebuild_the_fixed_header(h: &Ipv4Header, b: Seq<u8>)
    requires
        h.decodes(b),
    ensures
        h.spec_fixed_bytes() == b.take(20),
{
    let w = spec_flags_word(b);
    let raw = (w / 8192) as u8;
    lemma_flags_roundtrip(raw, h.flags);
    assert(raw & 7 == raw) by (bit_vector)
        requires
            raw < 8,
    ;
    lemma_ip_protocol_roundtrip(b[9], h.protocol);
    assert(h.flags.spec_as_byte() * 8192 + h.fragment_offset == w);
    assert(h.spec_fixed_bytes() =~= b.take(20));
}

} // verus!
