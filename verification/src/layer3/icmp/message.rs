//! The ICMP message dissector.
//!
//! ICMP has no length field of its own and no fixed body shape: only the
//! first 4 bytes (Type, Code, Checksum) mean the same thing for every
//! message. What comes after depends entirely on the Type, and how far the
//! message extends is declared by the datagram that carries it.

use vstd::prelude::*;

use crate::bytes::{be16, first_bytes, held_of, len_usize, read_be16};
use crate::checksum::{spec_checksum, spec_verify, verify, ChecksumStatus};
use crate::layer3::icmp::anomalies::IcmpAnomaly;
use crate::layer3::icmp::types::{spec_icmp_type, IcmpType};

verus! {

/// Every ICMP message has at least Type (1) + Code (1) + Checksum (2).
pub const MIN_HEADER_LENGTH: usize = 4;

/// Echo Request/Reply add Identifier (2) + Sequence Number (2) on top of
/// the common 4-byte header.
pub const ECHO_HEADER_LENGTH: usize = 8;

/// The body of an Echo Request/Reply message.
#[derive(Debug, Clone, Copy, PartialEq, Eq)]
pub struct IcmpEcho<'a> {
    /// Identifies which `ping` session this message belongs to.
    pub identifier: u16,
    /// Incremented on each Echo Request sent, so replies can be matched
    /// to requests and reordering or loss can be detected.
    pub sequence_number: u16,
    /// Everything past the 8-byte echo header, up to the declared end of
    /// the message, kept raw.
    pub data: &'a [u8],
}

/// The type-specific body of an ICMP message.
#[derive(Debug, Clone, Copy, PartialEq, Eq)]
pub enum IcmpBody<'a> {
    /// Echo Request or Echo Reply body; `None` when it was truncated.
    Echo(Option<IcmpEcho<'a>>),
    /// A type not yet mapped by this parser; carries the raw body,
    /// everything past the 4-byte common header.
    Other(&'a [u8]),
}

/// Every way ICMP message parsing can fail.
#[derive(Debug, Clone, Copy, PartialEq, Eq, Structural)]
pub enum IcmpError {
    /// The buffer is smaller than the minimum common header (4 bytes).
    BufferTooShortForHeader {
        /// Always 4.
        expected: usize,
        /// The actual number of bytes present.
        got: usize,
    },
}

/// The decoded fields of an ICMP message.
#[derive(Debug)]
pub struct IcmpMessage<'a> {
    /// What kind of ICMP message this is.
    pub type_: IcmpType,
    /// Sub-classifies the Type.
    pub code: u8,
    /// Checksum covering the entire ICMP message (header + data).
    pub checksum_: u16,
    /// Whether the checksum verified during `parse`.
    pub checksum_status: ChecksumStatus,
    /// The type-specific body.
    pub body: IcmpBody<'a>,
    /// Protocol-level anomalies detected during parsing.
    pub anomalies: Vec<IcmpAnomaly>,
}

/// The bytes of the message that are both captured and declared.
pub open spec fn available(b: Seq<u8>, message_length: usize) -> usize {
    if b.len() < message_length {
        b.len() as usize
    } else {
        message_length
    }
}

/// The first `message_length` bytes of `b`.
pub open spec fn declared_prefix(b: Seq<u8>, message_length: usize) -> Seq<u8> {
    b.take(message_length as int)
}

/// The raw body of an unmapped message: from the end of the common header
/// to the end of the available bytes (empty when fewer than 4 are).
pub open spec fn raw_body(b: Seq<u8>, message_length: usize) -> Seq<u8> {
    let avail = available(b, message_length);
    b.subrange(4, if avail < 4 { 4 } else { avail as int })
}

/// The data of an echo message: from the end of the 8-byte echo header to
/// the end of the available bytes.
pub open spec fn echo_data(b: Seq<u8>, message_length: usize) -> Seq<u8> {
    b.subrange(8, available(b, message_length) as int)
}

/// The checksum runs over exactly the declared bytes; it cannot be
/// verified when the declaration is shorter than the common header or the
/// capture shorter than the declaration.
pub open spec fn spec_message_checksum_status(b: Seq<u8>, message_length: usize) -> ChecksumStatus {
    if message_length < MIN_HEADER_LENGTH || b.len() < message_length {
        ChecksumStatus::NotVerifiable
    } else {
        spec_verify(declared_prefix(b, message_length))
    }
}

impl<'a> IcmpMessage<'a> {
    /// The message is what `b` (at least 4 bytes) encodes for a message
    /// declared `message_length` bytes long.
    pub open spec fn decodes(&self, b: Seq<u8>, message_length: usize) -> bool {
        let avail = available(b, message_length);
        &&& b.len() >= MIN_HEADER_LENGTH
        &&& self.type_ == spec_icmp_type(b[0])
        &&& self.code == b[1]
        &&& self.checksum_ == be16(b[2], b[3])
        &&& self.checksum_status == spec_message_checksum_status(b, message_length)
        &&& match self.type_ {
            IcmpType::Unknown(_) => {
                &&& self.body matches IcmpBody::Other(raw)
                &&& raw@ == raw_body(b, message_length)
                &&& self.anomalies@ == Seq::<IcmpAnomaly>::empty()
            },
            _ => if avail >= ECHO_HEADER_LENGTH {
                &&& self.body matches IcmpBody::Echo(Some(echo))
                &&& echo.identifier == be16(b[4], b[5])
                &&& echo.sequence_number == be16(b[6], b[7])
                &&& echo.data@ == echo_data(b, message_length)
                &&& self.anomalies@ == Seq::<IcmpAnomaly>::empty()
            } else {
                &&& self.body matches IcmpBody::Echo(None)
                &&& self.anomalies@ == seq![
                    IcmpAnomaly::BodyTruncated {
                        expected: ECHO_HEADER_LENGTH,
                        got: avail,
                    },
                ]
            },
        }
    }

    /// Parses an ICMP message from `buf`.
    ///
    /// `message_length` is the length the parent datagram declares for the
    /// message; it bounds every extended read: the checksum runs over
    /// exactly the declared bytes, body data ends at the declared edge, and
    /// truncation reports the bytes actually available. `buf` may hold
    /// more (padding) or fewer (truncated capture) bytes than declared.
    ///
    /// Only a buffer too short for the common 4-byte header fails; a body
    /// that the capture or the declaration cannot fill is recorded as an
    /// anomaly.
    pub fn parse(buf: &'a [u8], message_length: usize) -> (r: Result<Self, IcmpError>)
        ensures
            buf@.len() < MIN_HEADER_LENGTH ==> r == Err::<Self, IcmpError>(
                IcmpError::BufferTooShortForHeader {
                    expected: MIN_HEADER_LENGTH,
                    got: len_usize(buf@),
                },
            ),
            buf@.len() >= MIN_HEADER_LENGTH ==> (r matches Ok(m) && m.decodes(buf@, message_length)),
    {
        let buf_length = buf.len();
        if buf_length < MIN_HEADER_LENGTH {
            return Err(IcmpError::BufferTooShortForHeader { expected: MIN_HEADER_LENGTH, got: buf_length });
        }
        let type_ = IcmpType::from(buf[0]);
        let code = buf[1];
        let checksum_ = read_be16(buf[2], buf[3]);
        let available: usize = if buf_length < message_length {
            buf_length
        } else {
            message_length
        };
        let checksum_status = if message_length < MIN_HEADER_LENGTH || buf_length < message_length {
            ChecksumStatus::NotVerifiable
        } else {
            verify(&buf[0..message_length])
        };
        let mut anomalies: Vec<IcmpAnomaly> = Vec::new();
        let body = match type_ {
            IcmpType::Unknown(_) => {
                let end = if available < MIN_HEADER_LENGTH {
                    MIN_HEADER_LENGTH
                } else {
                    available
                };
                IcmpBody::Other(&buf[MIN_HEADER_LENGTH..end])
            },
            _ => {
                if available >= ECHO_HEADER_LENGTH {
                    IcmpBody::Echo(
                        Some(
                            IcmpEcho {
                                identifier: read_be16(buf[4], buf[5]),
                                sequence_number: read_be16(buf[6], buf[7]),
                                data: &buf[ECHO_HEADER_LENGTH..available],
                            },
                        ),
                    )
                } else {
                    anomalies.push(
                        IcmpAnomaly::BodyTruncated { expected: ECHO_HEADER_LENGTH, got: available },
                    );
                    IcmpBody::Echo(None)
                }
            },
        };
        assert(anomalies@ =~= seq![
            IcmpAnomaly::BodyTruncated { expected: ECHO_HEADER_LENGTH, got: available },
        ] || anomalies@ =~= Seq::<IcmpAnomaly>::empty());
        Ok(Self { type_, code, checksum_, checksum_status, body, anomalies })
    }
}

/// Bytes captured past the declared end of a message (such as Ethernet
/// padding) change nothing of what the message decodes to: neither the
/// body, nor the checksum window, nor the anomalies.
pub proof fn lemma_padding_is_ignored(
    m: &IcmpMessage,
    b: Seq<u8>,
    padding: Seq<u8>,
    message_length: usize,
)
    requires
        b.len() >= message_length,
        b.len() >= MIN_HEADER_LENGTH,
    ensures
        m.decodes(b + padding, message_length) <==> m.decodes(b, message_length),
{
    let bp = b + padding;
    assert(available(bp, message_length) == available(b, message_length));
    assert(declared_prefix(bp, message_length) =~= declared_prefix(b, message_length));
    assert(raw_body(bp, message_length) =~= raw_body(b, message_length));
    assert(bp[0] == b[0] && bp[1] == b[1] && bp[2] == b[2] && bp[3] == b[3]);
    if available(b, message_length) >= 8 {
        assert(bp[4] == b[4] && bp[5] == b[5] && bp[6] == b[6] && bp[7] == b[7]);
        assert(echo_data(bp, message_length) =~= echo_data(b, message_length));
    }
}

impl IcmpError {
    /// The message of an error.
    pub open spec fn spec_text(self) -> Seq<char> {
        match self {
            IcmpError::BufferTooShortForHeader { expected, got } =>
                "Buffer too short for an ICMP header: need at least "@ + crate::text::dec_usize(expected) + " bytes, got "@ + crate::text::dec_usize(got),
        }
    }

    /// Appends the message of the error.
    pub fn write_text(&self, out: &mut String)
        ensures
            final(out)@ == old(out)@ + self.spec_text(),
    {
        match self {
            Self::BufferTooShortForHeader { expected, got } => {
                crate::text::push_str(out, "Buffer too short for an ICMP header: need at least ");
                crate::text::push_dec_usize(out, *expected);
                crate::text::push_str(out, " bytes, got ");
                crate::text::push_dec_usize(out, *got);
            },
        }
        assert(out@ =~= old(out)@ + self.spec_text());
    }
}

/// For every Type, the checksum covers exactly the declared bytes: it
/// cannot be verified exactly when fewer than 4 bytes are declared or the
/// capture holds fewer than the declared bytes, and otherwise it is Good
/// exactly when the Internet checksum of the declared bytes is zero.
pub proof fn lemma_checksum_covers_declared_bytes(m: &IcmpMessage, b: Seq<u8>, message_length: usize)
    requires
        m.decodes(b, message_length),
    ensures
        m.checksum_status == ChecksumStatus::NotVerifiable <==> (message_length < 4 || b.len()
            < message_length),
        message_length >= 4 && b.len() >= message_length ==> (m.checksum_status
            == ChecksumStatus::Good <==> spec_checksum(first_bytes(b, message_length)) == 0),
        message_length >= 4 && b.len() >= message_length ==> (m.checksum_status
            == ChecksumStatus::Bad <==> spec_checksum(first_bytes(b, message_length)) != 0),
{
    assert(declared_prefix(b, message_length) =~= first_bytes(b, message_length));
}

/// Every byte of a message meets one of three fates. Of the bytes both
/// captured and declared (the first `min(captured, declared)`), an echo
/// message (Type 0 or 8) decodes bytes 4..8 into Identifier and Sequence
/// Number and carries the rest raw as its data; when fewer than 8 such
/// bytes exist its body is absent and a single truncation anomaly records
/// 8 needed and how many there were. Any other Type carries everything
/// after the common header raw. The Code and Checksum are bytes 1 and 2..4.
pub proof fn lemma_body_is_the_declared_bytes(m: &IcmpMessage, b: Seq<u8>, message_length: usize)
    requires
        m.decodes(b, message_length),
    ensures
        ({
            let avail = held_of(b, message_length);
            &&& m.code == b[1]
            &&& m.checksum_ == b[2] * 256 + b[3]
            &&& (b[0] == 0 || b[0] == 8) && avail >= 8 ==> {
                &&& m.body matches IcmpBody::Echo(Some(echo))
                &&& echo.identifier == b[4] * 256 + b[5]
                &&& echo.sequence_number == b[6] * 256 + b[7]
                &&& echo.data@ == b.subrange(8, avail)
                &&& m.anomalies@.len() == 0
            }
            &&& (b[0] == 0 || b[0] == 8) && avail < 8 ==> {
                &&& m.body matches IcmpBody::Echo(None)
                &&& m.anomalies@.len() == 1
                &&& m.anomalies@[0] matches IcmpAnomaly::BodyTruncated { expected, got }
                &&& expected == 8
                &&& got == avail
            }
            &&& b[0] != 0 && b[0] != 8 ==> {
                &&& m.body matches IcmpBody::Other(raw)
                &&& raw@ == b.subrange(4, if avail < 4 { 4 } else { avail })
                &&& m.anomalies@.len() == 0
            }
        }),
{
}

} // verus!
