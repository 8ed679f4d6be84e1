//! Network byte order.

use vstd::prelude::*;

verus! {

/// The big-endian 16-bit value of two bytes.
pub open spec fn be16(hi: u8, lo: u8) -> u16 {
    (hi * 256 + lo) as u16
}

/// Reads the big-endian (network order) 16-bit value of two bytes.
pub fn read_be16(hi: u8, lo: u8) -> (v: u16)
    ensures
        v == be16(hi, lo),
        v as int == hi * 256 + lo,
{
    (hi as u16) * 256 + (lo as u16)
}

/// The length of a byte sequence, as a machine size.
pub open spec fn len_usize(b: Seq<u8>) -> usize {
    b.len() as usize
}

/// The first `n` bytes of a byte sequence.
pub open spec fn first_bytes(b: Seq<u8>, n: usize) -> Seq<u8> {
    b.take(n as int)
}

/// How many of the first `n` bytes a byte sequence holds.
pub open spec fn held_of(b: Seq<u8>, n: usize) -> int {
    if b.len() < n {
        b.len() as int
    } else {
        n as int
    }
}

} // verus!
