//! Internet checksum computation and verification (RFC 1071).
//!
//! The checksum is the 16-bit one's complement of the one's complement sum
//! of all 16-bit big-endian words of the buffer; an odd final byte is the
//! high byte of a last word whose low byte is zero. Computing the checksum
//! over data that already carries a correct checksum yields zero.

use vstd::prelude::*;

verus! {

/// The 16-bit big-endian word at word index `k` of `buf`.
pub open spec fn word_at(buf: Seq<u8>, k: int) -> int {
    if 2 * k + 1 < buf.len() {
        buf[2 * k] * 256 + buf[2 * k + 1]
    } else {
        buf[2 * k] * 256
    }
}

/// How many 16-bit words `buf` splits into.
pub open spec fn word_count(buf: Seq<u8>) -> nat {
    ((buf.len() + 1) / 2) as nat
}

/// The plain sum of the first `n` words of `buf`.
pub open spec fn word_sum(buf: Seq<u8>, n: nat) -> int
    decreases n,
{
    if n == 0 {
        0
    } else {
        word_sum(buf, (n - 1) as nat) + word_at(buf, n - 1)
    }
}

/// The plain sum of every word of `buf`.
pub open spec fn total_sum(buf: Seq<u8>) -> int {
    word_sum(buf, word_count(buf))
}

/// Folding end-around carries: the one's complement sum in 16 bits.
/// Zero stays zero; any positive sum lands in `1..=0xFFFF`, congruent
/// to the sum modulo `0xFFFF`.
pub open spec fn fold16(s: int) -> int {
    if s <= 0 {
        0
    } else {
        (s - 1) % 65535 + 1
    }
}

/// The Internet checksum of `buf`.
pub open spec fn spec_checksum(buf: Seq<u8>) -> u16 {
    (0xFFFF - fold16(total_sum(buf))) as u16
}

/// One step of the running one's complement sum.
proof fn lemma_fold_step(s: int, w: int)
    requires
        s >= 0,
        0 <= w <= 0xFFFF,
    ensures
        fold16(s + w) == (if fold16(s) + w > 0xFFFF { fold16(s) + w - 0xFFFF } else { fold16(s) + w }),
{
    if s > 0 {
        let q = (s - 1) / 65535;
        let r = (s - 1) % 65535;
        vstd::arithmetic::div_mod::lemma_fundamental_div_mod(s - 1, 65535);
        if r + w < 65535 {
            vstd::arithmetic::div_mod::lemma_fundamental_div_mod_converse(s + w - 1, 65535, q, r + w);
        } else {
            vstd::arithmetic::div_mod::lemma_fundamental_div_mod_converse(
                s + w - 1,
                65535,
                q + 1,
                r + w - 65535,
            );
        }
    } else {
        if w > 0 {
            vstd::arithmetic::div_mod::lemma_fundamental_div_mod_converse(w - 1, 65535, 0, w - 1);
        }
    }
}

proof fn lemma_word_bounds(buf: Seq<u8>, k: int)
    requires
        0 <= k,
        2 * k < buf.len(),
    ensures
        0 <= word_at(buf, k) <= 0xFFFF,
{
}

/// Computes the Internet checksum over the given buffer.
pub fn checksum(buf: &[u8]) -> (c: u16)
    ensures
        c == spec_checksum(buf@),
{
    let n = buf.len();
    let words = n / 2 + n % 2;
    let mut acc: u32 = 0;
    let mut k: usize = 0;
    while k < words
        invariant
            n == buf@.len(),
            words == word_count(buf@),
            k <= words,
            acc == fold16(word_sum(buf@, k as nat)),
            acc <= 0xFFFF,
        decreases words - k,
    {
        let i = 2 * k;
        let word: u32 = if i + 1 < n {
            (buf[i] as u32) * 256 + (buf[i + 1] as u32)
        } else {
            (buf[i] as u32) * 256
        };
        proof {
            lemma_word_bounds(buf@, k as int);
            assert(word == word_at(buf@, k as int));
            assert(word_sum(buf@, (k + 1) as nat) == word_sum(buf@, k as nat) + word_at(buf@, k as int));
            lemma_word_sum_nonneg(buf@, k as nat);
            lemma_fold_step(word_sum(buf@, k as nat), word as int);
        }
        acc = acc + word;
        if acc > 0xFFFF {
            acc = acc - 0xFFFF;
        }
        k = k + 1;
    }
    0xFFFFu16 - (acc as u16)
}

proof fn lemma_word_sum_nonneg(buf: Seq<u8>, n: nat)
    requires
        n <= word_count(buf),
    ensures
        word_sum(buf, n) >= 0,
    decreases n,
{
    if n > 0 {
        lemma_word_sum_nonneg(buf, (n - 1) as nat);
        lemma_word_bounds(buf, n - 1);
    }
}

/// The word sums of two buffers that agree on every word but word `j`
/// differ by the difference of that word.
proof fn lemma_word_sum_update(a: Seq<u8>, b: Seq<u8>, j: int, n: nat)
    requires
        a.len() == b.len(),
        0 <= j,
        2 * j + 1 < a.len(),
        forall|k: int| 0 <= k < word_count(a) && k != j ==> word_at(a, k) == word_at(b, k),
        n <= word_count(a),
    ensures
        word_sum(b, n) == word_sum(a, n) + (if j < n { word_at(b, j) - word_at(a, j) } else { 0 }),
    decreases n,
{
    if n > 0 {
        lemma_word_sum_update(a, b, j, (n - 1) as nat);
    }
}

/// A positive sum that is a multiple of `0xFFFF` folds to `0xFFFF`.
proof fn lemma_fold_multiple(x: int, q: int)
    requires
        q >= 1,
        x == q * 65535,
    ensures
        fold16(x) == 0xFFFF,
{
    vstd::arithmetic::div_mod::lemma_fundamental_div_mod_converse(x - 1, 65535, q - 1, 65534);
}

/// Writing into a zeroed, word-aligned 16-bit field the checksum of the
/// buffer, high byte first, gives a buffer whose checksum is zero: the
/// receiver of a correctly checksummed message computes zero.
pub proof fn lemma_filled_checksum_verifies(buf: Seq<u8>, off: int)
    requires
        0 <= off,
        off % 2 == 0,
        off + 1 < buf.len(),
        buf[off] == 0,
        buf[off + 1] == 0,
    ensures
        spec_checksum(
            buf.update(off, (spec_checksum(buf) / 256) as u8).update(
                off + 1,
                (spec_checksum(buf) % 256) as u8,
            ),
        ) == 0,
{
    let c = spec_checksum(buf);
    let filled = buf.update(off, (c / 256) as u8).update(off + 1, (c % 256) as u8);
    let j = off / 2;
    assert(2 * j == off);
    assert forall|k: int| 0 <= k < word_count(buf) && k != j implies word_at(buf, k) == word_at(
        filled,
        k,
    ) by {
        assert(2 * k != off && 2 * k != off + 1);
        assert(2 * k + 1 != off && 2 * k + 1 != off + 1);
    }
    assert(word_at(buf, j) == 0);
    assert(word_at(filled, j) == c);
    lemma_word_sum_update(buf, filled, j, word_count(buf));
    let t = total_sum(buf);
    lemma_word_sum_nonneg(buf, word_count(buf));
    assert(total_sum(filled) == t + c);
    let a = fold16(t);
    if t > 0 {
        let q = (t - 1) / 65535;
        vstd::arithmetic::div_mod::lemma_fundamental_div_mod(t - 1, 65535);
        assert(t + c == (q + 1) * 65535);
        lemma_fold_multiple(t + c, q + 1);
    } else {
        lemma_fold_multiple(t + c, 1);
    }
}

/// The sum of a buffer verifies (its checksum is zero) exactly when its
/// one's complement sum is `0xFFFF`, that is when the plain sum is a
/// positive multiple of `0xFFFF`.
pub proof fn lemma_checksum_zero_iff(buf: Seq<u8>)
    ensures
        spec_checksum(buf) == 0 <==> fold16(total_sum(buf)) == 0xFFFF,
{
    lemma_word_sum_nonneg(buf, word_count(buf));
    let t = total_sum(buf);
    if t > 0 {
        vstd::arithmetic::div_mod::lemma_fundamental_div_mod(t - 1, 65535);
    }
}

/// Behind a buffer of even length, the first words of a concatenation are
/// the words of that buffer.
proof fn lemma_word_sum_prefix(a: Seq<u8>, b: Seq<u8>, n: nat)
    requires
        a.len() % 2 == 0,
        n <= word_count(a),
    ensures
        word_sum(a + b, n) == word_sum(a, n),
    decreases n,
{
    if n > 0 {
        lemma_word_sum_prefix(a, b, (n - 1) as nat);
        let k = n - 1;
        assert((a + b)[2 * k] == a[2 * k]);
        assert((a + b)[2 * k + 1] == a[2 * k + 1]);
    }
}

/// Behind a buffer of even length, the later words of a concatenation are
/// the words of the second buffer.
proof fn lemma_word_sum_suffix(a: Seq<u8>, b: Seq<u8>, n: nat)
    requires
        a.len() % 2 == 0,
        n <= word_count(b),
    ensures
        word_sum(a + b, word_count(a) + n) == total_sum(a) + word_sum(b, n),
    decreases n,
{
    if n == 0 {
        lemma_word_sum_prefix(a, b, word_count(a));
    } else {
        lemma_word_sum_suffix(a, b, (n - 1) as nat);
        let j = n - 1;
        let k = word_count(a) + j;
        assert(2 * k == a.len() + 2 * j);
        assert((a + b)[2 * k] == b[2 * j]);
        if 2 * j + 1 < b.len() {
            assert((a + b)[2 * k + 1] == b[2 * j + 1]);
        }
        assert(word_at(a + b, k) == word_at(b, j));
    }
}

/// The word sum of a concatenation whose first part has even length is the
/// sum of the word sums of the parts.
proof fn lemma_total_sum_concat(a: Seq<u8>, b: Seq<u8>)
    requires
        a.len() % 2 == 0,
    ensures
        total_sum(a + b) == total_sum(a) + total_sum(b),
{
    assert(word_count(a + b) == word_count(a) + word_count(b));
    lemma_word_sum_suffix(a, b, word_count(b));
}

/// A zero byte appended to a buffer of odd length is the low byte its last
/// word already had.
proof fn lemma_total_sum_zero_pad(c: Seq<u8>)
    requires
        c.len() % 2 == 1,
    ensures
        total_sum(c + seq![0u8]) == total_sum(c),
{
    let d = c + seq![0u8];
    assert(word_count(d) == word_count(c));
    assert forall|k: int| 0 <= k < word_count(c) implies word_at(d, k) == word_at(c, k) by {
        assert(d[2 * k] == c[2 * k]);
        if 2 * k + 1 < c.len() {
            assert(d[2 * k + 1] == c[2 * k + 1]);
        } else {
            assert(d[2 * k + 1] == 0);
        }
    }
    lemma_word_sum_pointwise(c, d, word_count(c));
}

proof fn lemma_word_sum_pointwise(c: Seq<u8>, d: Seq<u8>, n: nat)
    requires
        n <= word_count(c),
        forall|k: int| 0 <= k < word_count(c) ==> word_at(d, k) == word_at(c, k),
    ensures
        word_sum(d, n) == word_sum(c, n),
    decreases n,
{
    if n > 0 {
        lemma_word_sum_pointwise(c, d, (n - 1) as nat);
    }
}

/// The checksum does not depend on the order of 16-bit words: swapping two
/// word-aligned parts of a buffer keeps it. A zero word appended to any
/// buffer, and the zero byte that completes an odd final word, leave it
/// unchanged.
pub proof fn lemma_checksum_word_order_and_zero_padding(a: Seq<u8>, b: Seq<u8>, c: Seq<u8>)
    ensures
        a.len() % 2 == 0 && b.len() % 2 == 0 ==> spec_checksum(a + b) == spec_checksum(b + a),
        spec_checksum(a + seq![0u8, 0u8]) == spec_checksum(a),
        c.len() % 2 == 1 ==> spec_checksum(c + seq![0u8]) == spec_checksum(c),
{
    if a.len() % 2 == 0 && b.len() % 2 == 0 {
        lemma_total_sum_concat(a, b);
        lemma_total_sum_concat(b, a);
    }
    if c.len() % 2 == 1 {
        lemma_total_sum_zero_pad(c);
    }
    let z = seq![0u8, 0u8];
    assert(total_sum(z) == 0) by {
        reveal_with_fuel(word_sum, 2);
    }
    if a.len() % 2 == 0 {
        lemma_total_sum_concat(a, z);
    } else {
        let a0 = a + seq![0u8];
        lemma_total_sum_zero_pad(a);
        assert(a + z =~= a0 + seq![0u8]);
        let one = seq![0u8];
        assert(total_sum(one) == 0) by {
            reveal_with_fuel(word_sum, 2);
        }
        lemma_total_sum_concat(a0, one);
    }
}

/// Result of verifying a checksum.
#[derive(Debug, Clone, Copy, PartialEq, Eq, Structural)]
pub enum ChecksumStatus {
    /// The sum over the header (checksum field included) is zero.
    Good,
    /// The sum is nonzero: at least one bit is corrupted.
    Bad,
    /// Checksum could not be verified (e.g., buffer was truncated).
    NotVerifiable,
}

impl ChecksumStatus {
    /// How a status reads in a dissection.
    pub open spec fn spec_label(self) -> Seq<char> {
        match self {
            ChecksumStatus::Good => "correct"@,
            ChecksumStatus::Bad => "incorrect"@,
            ChecksumStatus::NotVerifiable => "unverified"@,
        }
    }

    /// How a status reads in a dissection: "correct", "incorrect" or
    /// "unverified".
    pub fn label(&self) -> (l: &'static str)
        ensures
            l@ == self.spec_label(),
    {
        match self {
            Self::Good => "correct",
            Self::Bad => "incorrect",
            Self::NotVerifiable => "unverified",
        }
    }
}

/// Each status reads differently: "correct" exactly for Good,
/// "incorrect" exactly for Bad, "unverified" exactly for NotVerifiable.
pub proof fn lemma_labels_tell_statuses_apart(s: ChecksumStatus)
    ensures
        s.spec_label() == "correct"@ <==> s == ChecksumStatus::Good,
        s.spec_label() == "incorrect"@ <==> s == ChecksumStatus::Bad,
        s.spec_label() == "unverified"@ <==> s == ChecksumStatus::NotVerifiable,
{
    reveal_strlit("correct");
    reveal_strlit("incorrect");
    reveal_strlit("unverified");
    assert("correct"@.len() == 7 && "incorrect"@.len() == 9 && "unverified"@.len() == 10);
}

/// The status that verifying `buf` gives: `Good` when its checksum is zero.
pub open spec fn spec_verify(buf: Seq<u8>) -> ChecksumStatus {
    if spec_checksum(buf) == 0 {
        ChecksumStatus::Good
    } else {
        ChecksumStatus::Bad
    }
}

/// Verifies the checksum of a complete buffer.
pub(crate) fn verify(buf: &[u8]) -> (s: ChecksumStatus)
    ensures
        s == spec_verify(buf@),
{
    if checksum(buf) == 0 {
        ChecksumStatus::Good
    } else {
        ChecksumStatus::Bad
    }
}

} // verus!
