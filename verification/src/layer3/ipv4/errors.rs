//! Every way IPv4 header parsing can fail.

use vstd::prelude::*;

use crate::text::{dec_digits, prefixed_hex, push_dec, push_dec_usize, push_prefixed_hex, push_str};

verus! {

/// Errors that can occur while parsing an IPv4 packet (RFC 6274).
#[derive(Debug, Clone, Copy, PartialEq, Eq, Structural)]
pub enum Ipv4Error {
    /// The provided buffer is smaller than the minimum size of an IPv4 header.
    BufferTooShortForHeader {
        /// The minimum number of bytes required (always 20).
        expected: usize,
        /// The actual number of bytes present in the buffer.
        got: usize,
    },
    /// The Version field is invalid; it must be 4.
    InvalidVersion {
        /// The extracted version value.
        version: u8,
        /// The raw first byte of the header.
        raw: u8,
    },
}

impl Ipv4Error {
    /// The message of an error.
    pub open spec fn spec_text(self) -> Seq<char> {
        match self {
            Ipv4Error::BufferTooShortForHeader { expected, got } =>
                "Buffer too short for a minimal IPv4 header: need at least "@ + dec_digits(expected as nat)
                + " bytes, got "@ + dec_digits(got as nat),
            Ipv4Error::InvalidVersion { version, raw } => "Invalid Version: "@ + dec_digits(version as nat)
                + ", expected 4 (raw byte 0 = "@ + prefixed_hex(raw as nat, 4) + ")"@,
        }
    }

    /// Appends the message of the error.
    pub fn write_text(&self, out: &mut String)
        ensures
            final(out)@ == old(out)@ + self.spec_text(),
    {
        match self {
            Self::BufferTooShortForHeader { expected, got } => {
                push_str(out, "Buffer too short for a minimal IPv4 header: need at least ");
                push_dec_usize(out, *expected);
                push_str(out, " bytes, got ");
                push_dec_usize(out, *got);
            },
            Self::InvalidVersion { version, raw } => {
                push_str(out, "Invalid Version: ");
                push_dec(out, *version as u64);
                push_str(out, ", expected 4 (raw byte 0 = ");
                push_prefixed_hex(out, *raw as u64, 4);
                push_str(out, ")");
            },
        }
        assert(out@ =~= old(out)@ + self.spec_text());
    }
}

} // verus!
