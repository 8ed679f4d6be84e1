//! IPv4 header parsing anomalies.

use vstd::prelude::*;

use crate::text::{dec_digits, push_dec, push_dec_usize, push_str};

verus! {

/// Anomalies detected during IPv4 header parsing. Unlike an
/// [`Ipv4Error`](crate::layer3::ipv4::errors::Ipv4Error), they do not halt
/// parsing: they are collected and reported as expert information.
#[derive(Debug, Clone, Copy, PartialEq, Eq, Structural)]
pub enum Ipv4Anomaly {
    /// The capture buffer is shorter than the header length declared by IHL.
    HeaderLongerThanCapture {
        /// The number of bytes actually captured.
        captured: usize,
        /// The declared header length in bytes (IHL × 4).
        declared: usize,
    },
    /// The declared header length is greater than the Total Length.
    HeaderExceedsTotalLength {
        /// Header length in bytes.
        header_length: usize,
        /// Total length in bytes.
        total_length: usize,
    },
    /// The Total Length field exceeds the actual captured buffer size.
    TotalLengthExceedsCapture {
        /// The actual captured buffer size in bytes.
        captured: usize,
    },
    /// The Reserved flag bit is set (must be zero).
    ReservedFlagSet,
    /// The IHL declares a size smaller than the minimum 20 bytes.
    InvalidIhl(u8),
}

/// The header field to which an [`Ipv4Anomaly`] refers.
#[derive(Debug, Clone, Copy, PartialEq, Eq, Structural)]
pub enum HeaderField {
    /// Refers to the Header Length (IHL) field.
    HeaderLength,
    /// Refers to the Total Length field.
    TotalLength,
    /// Refers to the Flags field.
    Flags,
}

impl Ipv4Anomaly {
    /// The header field an anomaly refers to.
    pub open spec fn spec_field(self) -> HeaderField {
        match self {
            Ipv4Anomaly::InvalidIhl(_) => HeaderField::HeaderLength,
            Ipv4Anomaly::HeaderLongerThanCapture { .. } => HeaderField::HeaderLength,
            Ipv4Anomaly::HeaderExceedsTotalLength { .. } => HeaderField::TotalLength,
            Ipv4Anomaly::TotalLengthExceedsCapture { .. } => HeaderField::TotalLength,
            Ipv4Anomaly::ReservedFlagSet => HeaderField::Flags,
        }
    }

    /// Returns the header field this anomaly refers to.
    pub fn field(&self) -> (f: HeaderField)
        ensures
            f == self.spec_field(),
    {
        match self {
            Self::InvalidIhl(_) | Self::HeaderLongerThanCapture { .. } => HeaderField::HeaderLength,
            Self::HeaderExceedsTotalLength { .. } | Self::TotalLengthExceedsCapture { .. } => {
                HeaderField::TotalLength
            },
            Self::ReservedFlagSet => HeaderField::Flags,
        }
    }
}

impl Ipv4Anomaly {
    /// The expert-information message of an anomaly.
    pub open spec fn spec_text(self) -> Seq<char> {
        match self {
            Ipv4Anomaly::HeaderLongerThanCapture { captured, .. } =>
                "IPv4 Header Length exceeds capture length ("@ + dec_digits(captured as nat) + " bytes)"@,
            Ipv4Anomaly::HeaderExceedsTotalLength { header_length, total_length } =>
                "IPv4 header length ("@ + dec_digits(header_length as nat) + ") exceeds Total Length ("@
                + dec_digits(total_length as nat) + ")"@,
            Ipv4Anomaly::TotalLengthExceedsCapture { captured } =>
                "IPv4 Total Length exceeds capture length ("@ + dec_digits(captured as nat) + " bytes)"@,
            Ipv4Anomaly::ReservedFlagSet => "Reserved bit is set (must be zero)"@,
            Ipv4Anomaly::InvalidIhl(ihl) => "Invalid IHL: "@ + dec_digits(ihl as nat) + ", minimum 5"@,
        }
    }

    /// Appends the expert-information message of the anomaly.
    pub fn write_text(&self, out: &mut String)
        ensures
            final(out)@ == old(out)@ + self.spec_text(),
    {
        match self {
            Self::HeaderLongerThanCapture { captured, .. } => {
                push_str(out, "IPv4 Header Length exceeds capture length (");
                push_dec_usize(out, *captured);
                push_str(out, " bytes)");
            },
            Self::HeaderExceedsTotalLength { header_length, total_length } => {
                push_str(out, "IPv4 header length (");
                push_dec_usize(out, *header_length);
                push_str(out, ") exceeds Total Length (");
                push_dec_usize(out, *total_length);
                push_str(out, ")");
            },
            Self::TotalLengthExceedsCapture { captured } => {
                push_str(out, "IPv4 Total Length exceeds capture length (");
                push_dec_usize(out, *captured);
                push_str(out, " bytes)");
            },
            Self::ReservedFlagSet => {
                push_str(out, "Reserved bit is set (must be zero)");
            },
            Self::InvalidIhl(ihl) => {
                push_str(out, "Invalid IHL: ");
                push_dec(out, *ihl as u64);
                push_str(out, ", minimum 5");
            },
        }
        assert(out@ =~= old(out)@ + self.spec_text());
    }
}

} // verus!
