//! The top-level error type returned by [`crate::frame::Frame::parse`].

use vstd::prelude::*;

use crate::layer2::ethernet::EthernetError;
use crate::layer3::ipv4::errors::Ipv4Error;
use crate::text::push_str;

verus! {

/// Errors that can halt the dissection. Only Ethernet and IPv4 can do
/// that: nothing below IPv4 stops the frame; every failure there becomes a
/// branch of the tree.
#[derive(Debug, Clone, Copy, PartialEq, Eq, Structural)]
pub enum AppError {
    /// Failed while parsing the Ethernet header (Layer 2).
    Ethernet(EthernetError),
    /// Failed while parsing the IPv4 header (Layer 3).
    Ipv4(Ipv4Error),
}

impl From<EthernetError> for AppError {
    fn from(err: EthernetError) -> (e: Self) {
        AppError::Ethernet(err)
    }
}

impl vstd::std_specs::convert::FromSpecImpl<EthernetError> for AppError {
    open spec fn obeys_from_spec() -> bool {
        true
    }

    open spec fn from_spec(err: EthernetError) -> Self {
        AppError::Ethernet(err)
    }
}

impl From<Ipv4Error> for AppError {
    fn from(err: Ipv4Error) -> (e: Self) {
        AppError::Ipv4(err)
    }
}

impl vstd::std_specs::convert::FromSpecImpl<Ipv4Error> for AppError {
    open spec fn obeys_from_spec() -> bool {
        true
    }

    open spec fn from_spec(err: Ipv4Error) -> Self {
        AppError::Ipv4(err)
    }
}

impl AppError {
    /// The message of an error, naming the layer it halted.
    pub open spec fn spec_text(self) -> Seq<char> {
        match self {
            AppError::Ethernet(e) => "Ethernet Error: "@ + e.spec_text(),
            AppError::Ipv4(e) => "IPv4 Error: "@ + e.spec_text(),
        }
    }

    /// The message of the error, naming the layer it halted, such as
    /// "IPv4 Error: Invalid Version: 6, expected 4 (raw byte 0 = 0x60)".
    pub fn to_text(&self) -> (t: String)
        ensures
            t@ == self.spec_text(),
    {
        let mut t = String::new();
        match self {
            Self::Ethernet(e) => {
                push_str(&mut t, "Ethernet Error: ");
                e.write_text(&mut t);
            },
            Self::Ipv4(e) => {
                push_str(&mut t, "IPv4 Error: ");
                e.write_text(&mut t);
            },
        }
        assert(t@ =~= self.spec_text());
        t
    }
}

} // verus!
