//! Building the Wireshark-style text of a dissection.
//!
//! Numbers are written as Rust's formatter writes them: decimal with no
//! padding, and lower-case hexadecimal padded with zeros to a minimum
//! number of digits.

use vstd::prelude::*;

verus! {

/// Appends one character to a string (`String::push`).
#[verifier::external_body]
pub(crate) fn push_char(s: &mut String, c: char)
    ensures
        final(s)@ == old(s)@.push(c),
{
    s.push(c);
}

/// Appends a string slice to a string.
pub(crate) fn push_str(s: &mut String, t: &str)
    ensures
        final(s)@ == old(s)@ + t@,
{
    s.append(t);
}

/// The lower-case hexadecimal digit of `d` (below 16).
pub open spec fn hex_char(d: nat) -> char {
    if d < 10 {
        ('0' as nat + d) as char
    } else {
        ('a' as nat + (d - 10)) as char
    }
}

/// The decimal digit of `d` (below 10).
pub open spec fn dec_char(d: nat) -> char {
    ('0' as nat + d) as char
}

/// `n` in lower-case hexadecimal, padded with zeros to at least
/// `min_width` digits (`{:0w$x}`).
pub open spec fn hex_digits(n: nat, min_width: nat) -> Seq<char>
    decreases n, min_width,
{
    if n < 16 && min_width <= 1 {
        seq![hex_char(n)]
    } else {
        hex_digits(n / 16, if min_width > 0 { (min_width - 1) as nat } else { 0 }) + seq![
            hex_char(n % 16),
        ]
    }
}

/// `n` in decimal (`{}`).
pub open spec fn dec_digits(n: nat) -> Seq<char>
    decreases n,
{
    if n < 10 {
        seq![dec_char(n)]
    } else {
        dec_digits(n / 10) + seq![dec_char(n % 10)]
    }
}

/// The value of a decimal digit character.
pub open spec fn dec_value_of(c: char) -> int {
    c as int - '0' as int
}

/// The value of a lower-case hexadecimal digit character.
pub open spec fn hex_value_of(c: char) -> int {
    if '0' <= c <= '9' {
        c as int - '0' as int
    } else {
        c as int - 'a' as int + 10
    }
}

/// A decimal digit character.
pub open spec fn is_dec_char(c: char) -> bool {
    '0' <= c <= '9'
}

/// A lower-case hexadecimal digit character.
pub open spec fn is_hex_char(c: char) -> bool {
    '0' <= c <= '9' || 'a' <= c <= 'f'
}

/// The number a string of decimal digits denotes.
pub open spec fn dec_value(s: Seq<char>) -> int
    decreases s.len(),
{
    if s.len() == 0 {
        0
    } else {
        dec_value(s.drop_last()) * 10 + dec_value_of(s.last())
    }
}

/// The number a string of hexadecimal digits denotes.
pub open spec fn hex_value(s: Seq<char>) -> int
    decreases s.len(),
{
    if s.len() == 0 {
        0
    } else {
        hex_value(s.drop_last()) * 16 + hex_value_of(s.last())
    }
}

/// Decimal text is the number written in decimal digits with no leading
/// zero: reading it back gives the number.
pub proof fn lemma_dec_digits_read_back(n: nat)
    ensures
        dec_value(dec_digits(n)) == n,
        forall|i: int| 0 <= i < dec_digits(n).len() ==> is_dec_char(#[trigger] dec_digits(n)[i]),
        dec_digits(n).len() >= 1,
        n >= 10 ==> dec_digits(n)[0] != '0',
    decreases n,
{
    if n >= 10 {
        lemma_dec_digits_read_back(n / 10);
        let s = dec_digits(n);
        assert(s.drop_last() =~= dec_digits(n / 10));
        assert(s[0] == dec_digits(n / 10)[0]);
        assert(s.last() == dec_char(n % 10));
        assert(dec_value_of(dec_char(n % 10)) == n % 10);
        vstd::arithmetic::div_mod::lemma_fundamental_div_mod(n as int, 10);
        assert(dec_value(s) == dec_value(s.drop_last()) * 10 + dec_value_of(s.last()));
        assert(dec_value(s.drop_last()) == n / 10);
        assert((n / 10) * 10 + n % 10 == n);
    } else {
        let s = dec_digits(n);
        assert(s.drop_last() =~= Seq::<char>::empty());
        assert(dec_value_of(dec_char(n)) == n);
        assert(dec_value(s) == dec_value(s.drop_last()) * 10 + dec_value_of(s.last()));
    }
}

/// Hexadecimal text is the number written in lower-case hexadecimal
/// digits, at least `min_width` of them, and no more than needed beyond
/// that: reading it back gives the number.
pub proof fn lemma_hex_digits_read_back(n: nat, min_width: nat)
    ensures
        hex_value(hex_digits(n, min_width)) == n,
        forall|i: int|
            0 <= i < hex_digits(n, min_width).len() ==> is_hex_char(#[trigger] hex_digits(n, min_width)[i]),
        hex_digits(n, min_width).len() >= min_width,
        hex_digits(n, min_width).len() >= 1,
        hex_digits(n, min_width).len() > min_width && hex_digits(n, min_width).len() > 1
            ==> hex_digits(n, min_width)[0] != '0',
    decreases n, min_width,
{
    let s = hex_digits(n, min_width);
    if n < 16 && min_width <= 1 {
        assert(s.drop_last() =~= Seq::<char>::empty());
        assert(hex_value_of(hex_char(n)) == n);
        assert(hex_value(s) == hex_value(s.drop_last()) * 16 + hex_value_of(s.last()));
    } else {
        let w: nat = if min_width > 0 { (min_width - 1) as nat } else { 0 };
        lemma_hex_digits_read_back(n / 16, w);
        let prev = hex_digits(n / 16, w);
        assert(s.drop_last() =~= prev);
        assert(s.last() == hex_char(n % 16));
        assert(hex_value_of(hex_char(n % 16)) == n % 16);
        vstd::arithmetic::div_mod::lemma_fundamental_div_mod(n as int, 16);
        assert(hex_value(s) == hex_value(s.drop_last()) * 16 + hex_value_of(s.last()));
        assert(hex_value(s.drop_last()) == n / 16);
        assert((n / 16) * 16 + n % 16 == n);
        assert(s[0] == prev[0]);
        if prev.len() == 1 && !(n / 16 < 16 && w <= 1) {
            let w2: nat = if w > 0 { (w - 1) as nat } else { 0 };
            lemma_hex_digits_read_back(n / 16 / 16, w2);
            assert(prev.len() >= 2);
        }
        if s.len() > min_width && s.len() > 1 && prev.len() == 1 {
            assert(prev[0] == hex_char(n / 16));
            assert(n / 16 != 0);
        }
    }
}

/// `n` in hexadecimal with a `0x` prefix, `width` characters at least in
/// all (`{:#0w$x}`).
pub open spec fn prefixed_hex(n: nat, width: nat) -> Seq<char> {
    seq!['0', 'x'] + hex_digits(n, if width > 2 { (width - 2) as nat } else { 0 })
}

fn hex_digit(d: u64) -> (c: char)
    requires
        d < 16,
    ensures
        c == hex_char(d as nat),
{
    let c = match d {
        0 => '0',
        1 => '1',
        2 => '2',
        3 => '3',
        4 => '4',
        5 => '5',
        6 => '6',
        7 => '7',
        8 => '8',
        9 => '9',
        10 => 'a',
        11 => 'b',
        12 => 'c',
        13 => 'd',
        14 => 'e',
        _ => 'f',
    };
    c
}

fn dec_digit(d: u64) -> (c: char)
    requires
        d < 10,
    ensures
        c == dec_char(d as nat),
{
    let c = match d {
        0 => '0',
        1 => '1',
        2 => '2',
        3 => '3',
        4 => '4',
        5 => '5',
        6 => '6',
        7 => '7',
        8 => '8',
        _ => '9',
    };
    c
}

/// Appends `n` in hexadecimal, zero-padded to `min_width` digits.
pub(crate) fn push_hex(s: &mut String, n: u64, min_width: u64)
    ensures
        final(s)@ == old(s)@ + hex_digits(n as nat, min_width as nat),
    decreases n, min_width,
{
    if n < 16 && min_width <= 1 {
        push_char(s, hex_digit(n));
    } else {
        let w = if min_width > 0 {
            min_width - 1
        } else {
            0
        };
        push_hex(s, n / 16, w);
        push_char(s, hex_digit(n % 16));
    }
    assert(s@ =~= old(s)@ + hex_digits(n as nat, min_width as nat));
}

/// Appends `n` in hexadecimal with a `0x` prefix, `width` characters at
/// least in all.
pub(crate) fn push_prefixed_hex(s: &mut String, n: u64, width: u64)
    ensures
        final(s)@ == old(s)@ + prefixed_hex(n as nat, width as nat),
{
    push_char(s, '0');
    push_char(s, 'x');
    let w = if width > 2 {
        width - 2
    } else {
        0
    };
    push_hex(s, n, w);
    assert(s@ =~= old(s)@ + prefixed_hex(n as nat, width as nat));
}

/// Appends `n` in decimal.
pub(crate) fn push_dec(s: &mut String, n: u64)
    ensures
        final(s)@ == old(s)@ + dec_digits(n as nat),
    decreases n,
{
    if n < 10 {
        push_char(s, dec_digit(n));
    } else {
        push_dec(s, n / 10);
        push_char(s, dec_digit(n % 10));
    }
    assert(s@ =~= old(s)@ + dec_digits(n as nat));
}

/// A machine size in decimal.
pub open spec fn dec_usize(n: usize) -> Seq<char> {
    dec_digits(n as nat)
}

/// A byte in decimal.
pub open spec fn dec_u8(n: u8) -> Seq<char> {
    dec_digits(n as nat)
}

/// A 16-bit value in decimal.
pub open spec fn dec_u16(n: u16) -> Seq<char> {
    dec_digits(n as nat)
}

/// A 16-bit value in hexadecimal with a `0x` prefix, `width` characters
/// at least in all.
pub open spec fn prefixed_hex_u16(n: u16, width: nat) -> Seq<char> {
    prefixed_hex(n as nat, width)
}

/// Appends a byte in decimal.
pub(crate) fn push_dec_u8(s: &mut String, n: u8)
    ensures
        final(s)@ == old(s)@ + dec_u8(n),
{
    push_dec(s, n as u64);
}

/// Appends a 16-bit value in decimal.
pub(crate) fn push_dec_u16(s: &mut String, n: u16)
    ensures
        final(s)@ == old(s)@ + dec_u16(n),
{
    push_dec(s, n as u64);
}

/// Appends a 16-bit value in hexadecimal with a `0x` prefix, `width`
/// characters at least in all.
pub(crate) fn push_prefixed_hex_u16(s: &mut String, n: u16, width: u64)
    ensures
        final(s)@ == old(s)@ + prefixed_hex_u16(n, width as nat),
{
    push_prefixed_hex(s, n as u64, width);
}

/// Appends a machine size in decimal.
pub(crate) fn push_dec_usize(s: &mut String, n: usize)
    ensures
        final(s)@ == old(s)@ + dec_digits(n as nat),
        final(s)@ == old(s)@ + dec_usize(n),
{
    push_dec(s, n as u64);
}

/// Appends a machine size in hexadecimal, zero-padded to `min_width`.
pub(crate) fn push_hex_usize(s: &mut String, n: usize, min_width: u64)
    ensures
        final(s)@ == old(s)@ + hex_digits(n as nat, min_width as nat),
{
    push_hex(s, n as u64, min_width);
}

/// Each byte as two hexadecimal digits followed by a space; when
/// `grouped`, an extra space follows the eighth byte.
pub open spec fn bytes_hex(bytes: Seq<u8>, grouped: bool) -> Seq<char>
    decreases bytes.len(),
{
    if bytes.len() == 0 {
        seq![]
    } else {
        bytes_hex(bytes.drop_last(), grouped) + hex_digits(bytes.last() as nat, 2) + seq![' ']
            + if grouped && bytes.len() == 8 {
            seq![' ']
        } else {
            seq![]
        }
    }
}

/// One line of a hex dump: the offset in at least four hexadecimal
/// digits, two spaces, the bytes, a newline.
pub open spec fn dump_line(chunk: Seq<u8>, offset: nat, grouped: bool) -> Seq<char> {
    hex_digits(offset, 4) + "  "@ + bytes_hex(chunk, grouped) + "\n"@
}

/// A hex dump of `data`, sixteen bytes a line, the first line at `offset`.
pub open spec fn dump_lines(data: Seq<u8>, offset: nat, grouped: bool) -> Seq<char>
    decreases data.len(),
{
    if data.len() == 0 {
        seq![]
    } else {
        let n = if data.len() < 16 {
            data.len() as int
        } else {
            16
        };
        dump_line(data.take(n), offset, grouped) + dump_lines(data.skip(n), offset + 16, grouped)
    }
}

/// Appends a hex dump of `data`, sixteen bytes a line.
pub(crate) fn push_dump(s: &mut String, data: &[u8], grouped: bool)
    ensures
        final(s)@ == old(s)@ + dump_lines(data@, 0, grouped),
{
    let len = data.len();
    let mut pos: usize = 0;
    assert(data@.skip(0) =~= data@);
    while pos < len
        invariant
            len == data@.len(),
            pos <= len,
            s@ + dump_lines(data@.skip(pos as int), pos as nat, grouped) == old(s)@ + dump_lines(
                data@,
                0,
                grouped,
            ),
        decreases len - pos,
    {
        let ghost rest = data@.skip(pos as int);
        let ghost before = s@;
        let n: usize = if len - pos < 16 {
            len - pos
        } else {
            16
        };
        let ghost chunk = rest.take(n as int);
        push_hex_usize(s, pos, 4);
        push_str(s, "  ");
        let ghost line_start = s@;
        let mut j: usize = 0;
        while j < n
            invariant
                len == data@.len(),
                pos + n <= len,
                j <= n,
                rest == data@.skip(pos as int),
                chunk == rest.take(n as int),
                s@ == line_start + bytes_hex(chunk.take(j as int), grouped),
            decreases n - j,
        {
            let b = data[pos + j];
            assert(chunk.take(j + 1).drop_last() =~= chunk.take(j as int));
            assert(chunk.take(j + 1).last() == b);
            push_hex(s, b as u64, 2);
            push_char(s, ' ');
            if grouped && j == 7 {
                push_char(s, ' ');
            }
            assert(s@ =~= line_start + bytes_hex(chunk.take(j + 1), grouped));
            j = j + 1;
        }
        assert(chunk.take(n as int) =~= chunk);
        push_str(s, "\n");
        assert(s@ =~= before + dump_line(chunk, pos as nat, grouped));
        assert(rest.skip(n as int) =~= data@.skip((pos + n) as int));
        assert(dump_lines(rest, pos as nat, grouped) == dump_line(chunk, pos as nat, grouped)
            + dump_lines(data@.skip((pos + n) as int), (pos + 16) as nat, grouped));
        pos = pos + n;
        if pos < len {
            assert(n == 16);
        }
        assert(s@ + dump_lines(data@.skip(pos as int), pos as nat, grouped) =~= before + dump_lines(
            rest,
            (pos - n) as nat,
            grouped,
        ));
    }
    assert(data@.skip(pos as int) =~= Seq::<u8>::empty());
    assert(s@ =~= old(s)@ + dump_lines(data@, 0, grouped));
}

} // verus!
