//! ICMP message parsing anomalies.

use vstd::prelude::*;

use crate::text::{dec_usize, push_dec_usize, push_str};

verus! {

/// Anomalies detected during ICMP message parsing. Unlike an
/// [`IcmpError`](crate::layer3::icmp::message::IcmpError), they do not halt
/// parsing: they are collected and reported as expert information.
#[derive(Debug, Clone, Copy, PartialEq, Eq, Structural)]
pub enum IcmpAnomaly {
    /// The Type dispatches a body of `expected` bytes, but fewer were
    /// captured: body fields are unavailable.
    BodyTruncated {
        /// Minimum message size the Type demands (common header + body).
        expected: usize,
        /// Bytes of the message actually captured.
        got: usize,
    },
}

impl IcmpAnomaly {
    /// The expert-information message of an anomaly.
    pub open spec fn spec_text(self) -> Seq<char> {
        match self {
            IcmpAnomaly::BodyTruncated { expected, got } => "Malformed Packet (Exception occurred): "@
                + dec_usize(expected) + " bytes needed, "@ + dec_usize(got)
                + " captured"@,
        }
    }

    /// Appends the expert-information message of the anomaly.
    pub fn write_text(&self, out: &mut String)
        ensures
            final(out)@ == old(out)@ + self.spec_text(),
    {
        match self {
            Self::BodyTruncated { expected, got } => {
                push_str(out, "Malformed Packet (Exception occurred): ");
                push_dec_usize(out, *expected);
                push_str(out, " bytes needed, ");
                push_dec_usize(out, *got);
                push_str(out, " captured");
            },
        }
        assert(out@ =~= old(out)@ + self.spec_text());
    }
}

} // verus!
