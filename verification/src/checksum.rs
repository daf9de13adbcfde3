//! The Internet checksum (RFC 1071), as applied to the 20-byte IPv4 header:
//! sum the 16-bit big-endian words, fold the carries above bit 15 back into
//! the low 16 bits until none remain, and take the one's complement.

use vstd::arithmetic::div_mod::{
    lemma_fundamental_div_mod, lemma_mod_multiples_vanish, lemma_small_mod, lemma_sub_mod_noop,
};
use vstd::prelude::*;
use vstd::slice::slice_index_get;

verus! {

/// The 16-bit big-endian word made of bytes `2k` and `2k + 1`.
pub open spec fn word_at(data: Seq<u8>, k: int) -> int {
    data[2 * k] * 0x100 + data[2 * k + 1]
}

/// Sum of the first `n` 16-bit big-endian words of `data`.
pub open spec fn sum_words(data: Seq<u8>, n: int) -> int
    decreases n,
{
    if n <= 0 {
        0
    } else {
        sum_words(data, n - 1) + word_at(data, n - 1)
    }
}

/// Folds any carry above bit 15 back into the low 16 bits, repeatedly,
/// until the value fits in 16 bits.
pub open spec fn fold_carries(s: int) -> int
    decreases s,
{
    if s < 0x10000 {
        s
    } else {
        fold_carries(s % 0x10000 + s / 0x10000)
    }
}

/// The Internet checksum of `data`: the one's complement of the folded
/// 16-bit one's-complement sum, with the word sum accumulated in a 32-bit
/// register that wraps.
pub open spec fn checksum_spec(data: Seq<u8>) -> u16 {
    (0xffff - fold_carries(sum_words(data, data.len() as int / 2) % 0x1_0000_0000)) as u16
}

/// Computes the Internet checksum of an even-length byte sequence.
pub fn internet_checksum(data: &[u8]) -> (r: u16)
    requires
        data@.len() % 2 == 0,
    ensures
        r == checksum_spec(data@),
{
    let ghost total: int = sum_words(data@, (data@.len() / 2) as int) % 0x1_0000_0000;
    let len = data.len();
    let mut sum: u32 = 0;
    let mut i: usize = 0;
    while i < len
        invariant
            data@.len() == len,
            len % 2 == 0,
            i % 2 == 0,
            i <= len,
            sum == sum_words(data@, i as int / 2) % 0x1_0000_0000,
        decreases len - i,
    {
        assert(i + 1 < len);
        let hi = *slice_index_get(data, i);
        let lo = *slice_index_get(data, i + 1);
        let word: u32 = (hi as u32) * 0x100 + (lo as u32);
        proof {
            assert(word == word_at(data@, i as int / 2));
            assert(sum_words(data@, i as int / 2 + 1)
                == sum_words(data@, i as int / 2) + word_at(data@, i as int / 2));
            vstd::arithmetic::div_mod::lemma_add_mod_noop(
                sum_words(data@, i as int / 2),
                word as int,
                0x1_0000_0000,
            );
            lemma_small_mod(word as nat, 0x1_0000_0000);
        }
        sum = ((sum as u64 + word as u64) % 0x1_0000_0000) as u32;
        i = i + 2;
    }
    while sum >= 0x10000
        invariant
            fold_carries(sum as int) == fold_carries(total),
        decreases sum,
    {
        sum = sum % 0x10000 + sum / 0x10000;
    }
    (0xffff - sum) as u16
}

/// Bounds, positivity, and the modulo-0xffff fixpoint of carry folding.
pub proof fn lemma_fold_carries_props(s: int)
    requires
        s >= 0,
    ensures
        0 <= fold_carries(s) < 0x10000,
        fold_carries(s) <= s,
        s > 0 ==> fold_carries(s) > 0,
        fold_carries(s) % 0xffff == s % 0xffff,
    decreases s,
{
    if s < 0x10000 {
    } else {
        let q = s / 0x10000;
        let r = s % 0x10000;
        lemma_fundamental_div_mod(s, 0x10000);
        assert(s == 0x10000 * q + r);
        assert(q >= 1);
        lemma_fold_carries_props(q + r);
        assert(s == 0xffff * q + (q + r));
        lemma_mod_multiples_vanish(q, q + r, 0xffff);
    }
}

/// The word sum of `n` words lies between 0 and `n * 0xffff`.
pub proof fn lemma_sum_words_bound(data: Seq<u8>, n: int)
    requires
        0 <= n,
    ensures
        0 <= sum_words(data, n) <= n * 0xffff,
    decreases n,
{
    if n > 0 {
        lemma_sum_words_bound(data, n - 1);
        assert(0 <= word_at(data, n - 1) <= 0xffff);
    }
}

/// A 20-byte header with the checksum `c` written big-endian into bytes
/// 10 and 11.
pub open spec fn with_checksum(h: Seq<u8>, c: u16) -> Seq<u8> {
    h.update(10, (c / 0x100) as u8).update(11, (c % 0x100) as u8)
}

/// Writing `c` into the (zeroed) checksum word of a 20-byte header raises
/// the word sum by exactly `c`.
proof fn lemma_sum_words_with_checksum(h: Seq<u8>, c: u16, n: int)
    requires
        h.len() == 20,
        h[10] == 0,
        h[11] == 0,
        0 <= n <= 10,
    ensures
        sum_words(with_checksum(h, c), n) == sum_words(h, n) + if n >= 6 {
            c as int
        } else {
            0
        },
    decreases n,
{
    if n > 0 {
        lemma_sum_words_with_checksum(h, c, n - 1);
        if n - 1 == 5 {
            lemma_fundamental_div_mod(c as int, 0x100);
            assert(word_at(with_checksum(h, c), 5) == c as int);
        } else {
            assert(word_at(with_checksum(h, c), n - 1) == word_at(h, n - 1));
        }
    }
}

/// Checksum self-verification: for a 20-byte header whose checksum word is
/// zero, inserting the computed checksum and running the checksum again
/// over the result yields zero.
pub proof fn lemma_checksum_self_verifies(h: Seq<u8>)
    requires
        h.len() == 20,
        h[10] == 0,
        h[11] == 0,
    ensures
        checksum_spec(with_checksum(h, checksum_spec(h))) == 0,
{
    let s = sum_words(h, 10);
    lemma_sum_words_bound(h, 10);
    lemma_small_mod(s as nat, 0x1_0000_0000);
    let f = fold_carries(s);
    lemma_fold_carries_props(s);
    let c = checksum_spec(h);
    assert(c == 0xffff - f);
    let h2 = with_checksum(h, c);
    assert(h2.len() == 20);
    lemma_sum_words_with_checksum(h, c, 10);
    let s2 = sum_words(h2, 10);
    assert(s2 == s + 0xffff - f);
    lemma_small_mod(s2 as nat, 0x1_0000_0000);
    let f2 = fold_carries(s2);
    lemma_fold_carries_props(s2);
    assert(s2 % 0xffff == 0) by {
        lemma_sub_mod_noop(s, f, 0xffff);
        assert((s - f) % 0xffff == 0);
        lemma_mod_multiples_vanish(1, s - f, 0xffff);
        assert(s2 == 0xffff * 1 + (s - f));
    }
    assert(f2 == 0xffff) by {
        assert(f2 % 0xffff == 0);
        assert(0 < s2);
        assert(0 < f2 <= 0xffff);
        if f2 < 0xffff {
            lemma_small_mod(f2 as nat, 0xffff);
        }
    }
    assert(checksum_spec(h2) == 0);
}

} // verus!
