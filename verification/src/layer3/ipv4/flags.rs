//! The 3-bit Flags field of the IPv4 header.
//!
//! Bit 2: Reserved (must be zero).
//! Bit 1: DF, 0 = May Fragment, 1 = Don't Fragment.
//! Bit 0: MF, 0 = Last Fragment, 1 = More Fragments.

use vstd::prelude::*;

use crate::text::push_str;

verus! {

/// The three IPv4 control flags, decoded into named booleans.
#[derive(Debug, Clone, Copy, PartialEq, Eq, Structural)]
pub struct IpFlags {
    /// The reserved bit (must be zero).
    pub reserved: bool,
    /// Don't Fragment.
    pub dont_fragment: bool,
    /// More Fragments.
    pub more_fragments: bool,
}

impl IpFlags {
    /// The flags that the low three bits of `flags_value` encode.
    pub open spec fn spec_parse(flags_value: u8) -> IpFlags {
        IpFlags {
            reserved: flags_value & 4 != 0,
            dont_fragment: flags_value & 2 != 0,
            more_fragments: flags_value & 1 != 0,
        }
    }

    /// The packed 3-bit representation (reserved | DF | MF).
    pub open spec fn spec_as_byte(self) -> u8 {
        ((if self.reserved { 4int } else { 0 }) + (if self.dont_fragment { 2int } else { 0 }) + (
        if self.more_fragments { 1int } else { 0 })) as u8
    }

    /// Parses the 3-bit flags field into individual boolean flags; bits
    /// above the third are ignored.
    pub fn parse(flags_value: u8) -> (f: Self)
        ensures
            f == Self::spec_parse(flags_value),
    {
        Self {
            reserved: flags_value & 4 != 0,
            dont_fragment: flags_value & 2 != 0,
            more_fragments: flags_value & 1 != 0,
        }
    }

    /// Reconstructs the packed 3-bit representation (reserved | DF | MF).
    pub fn as_byte(&self) -> (b: u8)
        ensures
            b == self.spec_as_byte(),
            b < 8,
    {
        let r: u8 = if self.reserved { 4 } else { 0 };
        let d: u8 = if self.dont_fragment { 2 } else { 0 };
        let m: u8 = if self.more_fragments { 1 } else { 0 };
        r + d + m
    }

    /// A set reserved bit does not make the packet invalid; it is an anomaly
    /// worth flagging.
    pub fn is_anomalous(&self) -> (b: bool)
        ensures
            b == self.reserved,
    {
        self.reserved
    }
}

/// Packing parsed flags gives back the low three bits of the raw value,
/// and parsing packed flags gives back the flags.
pub proof fn lemma_flags_roundtrip(v: u8, f: IpFlags)
    ensures
        IpFlags::spec_parse(v).spec_as_byte() == v & 7,
        IpFlags::spec_parse(f.spec_as_byte()) == f,
{
    let r = v & 4 != 0;
    let d = v & 2 != 0;
    let m = v & 1 != 0;
    assert(((if r { 4u8 } else { 0u8 }) + (if d { 2u8 } else { 0u8 }) + (if m { 1u8 } else { 0u8 }))
        == v & 7) by (bit_vector)
        requires
            r == (v & 4 != 0),
            d == (v & 2 != 0),
            m == (v & 1 != 0),
    ;
    let b = f.spec_as_byte();
    let (fr, fd, fm) = (f.reserved, f.dont_fragment, f.more_fragments);
    assert(b == (if fr { 4u8 } else { 0u8 }) + (if fd { 2u8 } else { 0u8 }) + (if fm { 1u8 } else { 0u8 }));
    assert((b & 4 != 0) == fr && (b & 2 != 0) == fd && (b & 1 != 0) == fm) by (bit_vector)
        requires
            b == (if fr { 4u8 } else { 0u8 }) + (if fd { 2u8 } else { 0u8 }) + (if fm { 1u8 } else { 0u8 }),
    ;
}

impl IpFlags {
    /// The names of the set flags, separated by commas, or "none".
    pub open spec fn spec_text(self) -> Seq<char> {
        if !self.reserved && !self.dont_fragment && !self.more_fragments {
            "none"@
        } else {
            let r: Seq<char> = if self.reserved {
                "Reserved"@
            } else {
                seq![]
            };
            let d: Seq<char> = if self.dont_fragment {
                (if self.reserved {
                    ", "@
                } else {
                    seq![]
                }) + "Don't Fragment"@
            } else {
                seq![]
            };
            let m: Seq<char> = if self.more_fragments {
                (if self.reserved || self.dont_fragment {
                    ", "@
                } else {
                    seq![]
                }) + "More Fragments"@
            } else {
                seq![]
            };
            r + d + m
        }
    }

    /// Appends the names of the set flags ("Reserved", "Don't Fragment",
    /// "More Fragments"), separated by commas, or "none".
    pub fn write_text(&self, out: &mut String)
        ensures
            final(out)@ == old(out)@ + self.spec_text(),
    {
        if !self.reserved && !self.dont_fragment && !self.more_fragments {
            push_str(out, "none");
        } else {
            if self.reserved {
                push_str(out, "Reserved");
            }
            if self.dont_fragment {
                if self.reserved {
                    push_str(out, ", ");
                }
                push_str(out, "Don't Fragment");
            }
            if self.more_fragments {
                if self.reserved || self.dont_fragment {
                    push_str(out, ", ");
                }
                push_str(out, "More Fragments");
            }
        }
        assert(out@ =~= old(out)@ + self.spec_text());
    }
}

} // verus!
