//! The Internet checksum: the 16-bit one's-complement sum, with carry
//! folding, used by both the IPv4 header checksum and the ICMP header
//! checksum.

use vstd::arithmetic::div_mod::{lemma_add_mod_noop, lemma_mod_multiples_vanish};
use vstd::prelude::*;

verus! {

/// The 16-bit big-endian word of `data` made of bytes `2*i` and `2*i + 1`.
pub open spec fn word_at(data: Seq<u8>, i: int) -> int {
    data[2 * i] * 0x100 + data[2 * i + 1]
}

/// Sum of the first `n` 16-bit big-endian words of `data`.
pub open spec fn sum_words(data: Seq<u8>, n: nat) -> int
    decreases n,
{
    if n == 0 {
        0
    } else {
        sum_words(data, (n - 1) as nat) + word_at(data, n - 1)
    }
}

/// Carry folding: repeatedly add the bits above the low 16 back into the
/// low 16 bits, until the value fits in 16 bits.
pub open spec fn fold_carries(s: int) -> int
    recommends
        s >= 0,
    decreases s,
{
    if s <= 0xffff {
        s
    } else {
        fold_carries(s % 0x10000 + s / 0x10000)
    }
}

/// The checksum of `data`: the one's complement of the folded word sum.
/// An odd trailing byte is not covered, matching the header rewrite paths,
/// which only ever sum ranges of even length.
pub open spec fn checksum_of(data: Seq<u8>) -> u16 {
    (0xffff - fold_carries(sum_words(data, (data.len() / 2) as nat))) as u16
}

/// The folded sum stays in `[0, 0xffff]`, is congruent to the plain sum
/// modulo 0xffff, and is zero only for the zero sum.
pub proof fn lemma_fold_carries_props(s: int)
    requires
        s >= 0,
    ensures
        0 <= fold_carries(s) <= 0xffff,
        fold_carries(s) % 0xffff == s % 0xffff,
        s > 0 ==> fold_carries(s) > 0,
    decreases s,
{
    if s <= 0xffff {
    } else {
        let q = s / 0x10000;
        let r = s % 0x10000;
        assert(s == 0x10000 * q + r);
        assert(q >= 1);
        assert(0x10000 * q + r == 0xffff * q + (q + r));
        lemma_mod_multiples_vanish(q, q + r, 0xffff);
        assert(s % 0xffff == (q + r) % 0xffff);
        assert(q + r < s);
        lemma_fold_carries_props(q + r);
    }
}

/// Replacing one word of `data` shifts the word sum by exactly the
/// difference between the new word and the old one.
pub proof fn lemma_sum_words_update(data: Seq<u8>, updated: Seq<u8>, j: int, n: nat)
    requires
        data.len() == updated.len(),
        0 <= j,
        2 * j + 1 < data.len(),
        forall|k: int| 0 <= k < data.len() && k != 2 * j && k != 2 * j + 1 ==> data[k] == updated[k],
        2 * n <= data.len(),
    ensures
        j < n ==> sum_words(updated, n) == sum_words(data, n) - word_at(data, j) + word_at(
            updated,
            j,
        ),
        j >= n ==> sum_words(updated, n) == sum_words(data, n),
    decreases n,
{
    if n == 0 {
    } else {
        lemma_sum_words_update(data, updated, j, (n - 1) as nat);
        if j == n - 1 {
        } else {
            assert(word_at(updated, n - 1) == word_at(data, n - 1));
        }
    }
}

/// The checksum self-verification law: take any even-indexed word of
/// `data` holding zero (the checksum field), stamp the computed checksum
/// into it, and the checksum recomputed over the stamped bytes is zero.
pub proof fn lemma_checksum_self_verify(data: Seq<u8>, j: int)
    requires
        0 <= j,
        2 * j + 1 < 2 * (data.len() / 2),
        word_at(data, j) == 0,
    ensures
        ({
            let c = checksum_of(data);
            let stamped = data.update(2 * j, (c / 0x100) as u8).update(2 * j + 1, (c % 0x100) as u8);
            checksum_of(stamped) == 0
        }),
{
    let n = (data.len() / 2) as nat;
    let s0 = sum_words(data, n);
    lemma_sum_words_bound(data, n);
    lemma_fold_carries_props(s0);
    let f = fold_carries(s0);
    let c = checksum_of(data);
    assert(c == 0xffff - f);
    let stamped = data.update(2 * j, (c / 0x100) as u8).update(2 * j + 1, (c % 0x100) as u8);
    assert(stamped.len() == data.len());
    assert(word_at(stamped, j) == c) by {
        assert(stamped[2 * j] == (c / 0x100) as u8);
        assert(stamped[2 * j + 1] == (c % 0x100) as u8);
        assert((c / 0x100) as u8 * 0x100 + (c % 0x100) as u8 == c);
    }
    lemma_sum_words_update(data, stamped, j, n);
    let s1 = sum_words(stamped, n);
    assert(s1 == s0 + c);
    assert(s1 > 0);
    lemma_fold_carries_props(s1);
    assert(fold_carries(s1) % 0xffff == s1 % 0xffff);
    lemma_add_mod_noop(s0, c as int, 0xffff);
    assert(s0 % 0xffff == f % 0xffff);
    lemma_add_mod_noop(f, c as int, 0xffff);
    assert((f + c) % 0xffff == 0);
    assert(s1 % 0xffff == 0);
    assert(fold_carries(s1) == 0xffff);
    assert(checksum_of(stamped) == 0);
}

/// Sum of `n` words of a sequence whose bytes all fit in `u8` is at most
/// `n * 0xffff`.
proof fn lemma_sum_words_bound(data: Seq<u8>, n: nat)
    requires
        2 * n <= data.len(),
    ensures
        0 <= sum_words(data, n) <= n * 0xffff,
    decreases n,
{
    if n == 0 {
    } else {
        lemma_sum_words_bound(data, (n - 1) as nat);
        assert(word_at(data, n - 1) <= 0xffff);
    }
}

/// Compute the checksum of `data`: sum the 16-bit big-endian words, fold
/// the carries into the low 16 bits, and complement the result.
pub fn compute_checksum(data: &[u8]) -> (r: u16)
    requires
        data@.len() <= 0xffff,
    ensures
        r == checksum_of(data@),
{
    let n = data.len() / 2;
    let mut sum: u32 = 0;
    let mut i: usize = 0;
    proof {
        lemma_sum_words_bound(data@, n as nat);
    }
    while i < n
        invariant
            i <= n,
            2 * n <= data@.len() <= 0xffff,
            sum == sum_words(data@, i as nat),
            sum <= i * 0xffff,
        decreases n - i,
    {
        proof {
            lemma_sum_words_bound(data@, (i + 1) as nat);
        }
        let hi = data[2 * i] as u32;
        let lo = data[2 * i + 1] as u32;
        assert(sum + hi * 0x100 + lo == sum_words(data@, (i + 1) as nat));
        sum = sum + hi * 0x100 + lo;
        i = i + 1;
    }
    let ghost s0 = sum_words(data@, n as nat);
    while sum > 0xffff
        invariant
            sum >= 0,
            fold_carries(sum as int) == fold_carries(s0),
        decreases sum,
    {
        assert((sum & 0xffff) == sum % 0x10000 && (sum >> 16u32) == sum / 0x10000) by (bit_vector);
        assert(sum % 0x10000 + sum / 0x10000 < sum);
        sum = (sum & 0xffff) + (sum >> 16u32);
    }
    let folded = sum as u16;
    assert(folded == fold_carries(s0));
    assert(!folded == (0xffff - folded) as u16) by (bit_vector);
    !folded
}

} // verus!
