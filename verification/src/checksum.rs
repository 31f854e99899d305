//! The Internet checksum engine: full one's-complement checksums over a byte
//! region, and incremental updates after a single 16-bit field changes.

use vstd::prelude::*;
use vstd::arithmetic::div_mod::{
    lemma_fundamental_div_mod, lemma_mod_multiples_vanish, lemma_small_mod, lemma_sub_mod_noop,
};

verus! {

/// Sum of the big-endian 16-bit words of `data` from byte index `i` on; an
/// odd trailing byte counts as the high byte of a final word whose low byte
/// is zero.
pub open spec fn word_sum_from(data: Seq<u8>, i: int) -> int
    decreases data.len() - i,
{
    if i < 0 || i >= data.len() {
        0
    } else if i + 1 == data.len() {
        data[i] * 256
    } else {
        data[i] * 256 + data[i + 1] + word_sum_from(data, i + 2)
    }
}

/// Sum of the big-endian 16-bit words of the whole region.
pub open spec fn word_sum(data: Seq<u8>) -> int {
    word_sum_from(data, 0)
}

/// Folds any carry beyond bit 16 of a one's-complement accumulator back into
/// the low 16 bits, repeatedly, until none remains.
pub open spec fn fold_carries(sum: int) -> int
    decreases sum,
{
    if sum < 0x10000 {
        sum
    } else {
        fold_carries(sum % 0x10000 + sum / 0x10000)
    }
}

/// The Internet checksum of a byte region: the one's complement of the
/// carry-folded word sum.
pub open spec fn spec_ip_checksum(data: Seq<u8>) -> u16 {
    (0xFFFF - fold_carries(word_sum(data))) as u16
}

/// The incrementally updated checksum after one 16-bit field of an
/// already-checksummed region changes from `old_val` to `new_val`.
pub open spec fn spec_update_checksum(old_sum: u16, old_val: u16, new_val: u16) -> u16 {
    (0xFFFF - fold_carries((0xFFFF - old_sum) + (0xFFFF - old_val) + new_val)) as u16
}

/// A word sum is never negative.
pub proof fn lemma_word_sum_from_nonneg(data: Seq<u8>, i: int)
    ensures
        word_sum_from(data, i) >= 0,
    decreases data.len() - i,
{
    if 0 <= i && i + 1 < data.len() {
        lemma_word_sum_from_nonneg(data, i + 2);
    }
}

/// The folded accumulator stays within 16 bits.
pub proof fn lemma_fold_carries_range(s: int)
    requires
        s >= 0,
    ensures
        0 <= fold_carries(s) <= 0xFFFF,
    decreases s,
{
    if s >= 0x10000 {
        lemma_fundamental_div_mod(s, 0x10000);
        lemma_fold_carries_range(s % 0x10000 + s / 0x10000);
    }
}

/// Folding never increases the accumulator.
pub proof fn lemma_fold_carries_le(s: int)
    requires
        s >= 0,
    ensures
        fold_carries(s) <= s,
    decreases s,
{
    if s >= 0x10000 {
        lemma_fundamental_div_mod(s, 0x10000);
        lemma_fold_carries_le(s % 0x10000 + s / 0x10000);
    }
}

/// Folding a positive accumulator never reaches zero.
pub proof fn lemma_fold_carries_pos(s: int)
    requires
        s > 0,
    ensures
        fold_carries(s) > 0,
    decreases s,
{
    if s >= 0x10000 {
        lemma_fundamental_div_mod(s, 0x10000);
        lemma_fold_carries_pos(s % 0x10000 + s / 0x10000);
    }
}

/// Folding preserves the value modulo 0xFFFF: each fold step moves a carry
/// of weight 0x10000 down to weight 1, subtracting a multiple of 0xFFFF.
pub proof fn lemma_fold_carries_congruent(s: int)
    requires
        s >= 0,
    ensures
        fold_carries(s) % 0xFFFF == s % 0xFFFF,
    decreases s,
{
    if s >= 0x10000 {
        let next = s % 0x10000 + s / 0x10000;
        lemma_fundamental_div_mod(s, 0x10000);
        assert(s == 0xFFFF * (s / 0x10000) + next);
        lemma_mod_multiples_vanish(s / 0x10000, next, 0xFFFF);
        lemma_fold_carries_congruent(next);
    }
}

/// Two positive accumulators that agree modulo 0xFFFF fold to the same value.
pub proof fn lemma_fold_carries_equal(a: int, b: int)
    requires
        a > 0,
        b > 0,
        a % 0xFFFF == b % 0xFFFF,
    ensures
        fold_carries(a) == fold_carries(b),
{
    let za = fold_carries(a);
    let zb = fold_carries(b);
    lemma_fold_carries_range(a);
    lemma_fold_carries_range(b);
    lemma_fold_carries_pos(a);
    lemma_fold_carries_pos(b);
    lemma_fold_carries_congruent(a);
    lemma_fold_carries_congruent(b);
    if za < 0xFFFF {
        lemma_small_mod(za as nat, 0xFFFF);
    }
    if zb < 0xFFFF {
        lemma_small_mod(zb as nat, 0xFFFF);
    }
    if za == 0xFFFF {
        assert(za % 0xFFFF == 0);
    }
    if zb == 0xFFFF {
        assert(zb % 0xFFFF == 0);
    }
}

/// Word sums of two regions agree from any index at which the regions agree
/// elementwise.
pub proof fn lemma_word_sum_from_agree(d1: Seq<u8>, d2: Seq<u8>, i: int)
    requires
        d1.len() == d2.len(),
        forall|k: int| i <= k < d1.len() ==> d1[k] == d2[k],
    ensures
        word_sum_from(d1, i) == word_sum_from(d2, i),
    decreases d1.len() - i,
{
    if 0 <= i && i + 1 < d1.len() {
        lemma_word_sum_from_agree(d1, d2, i + 2);
    }
}

/// Replacing the aligned 16-bit word at byte index `i` shifts the word sum
/// by exactly the difference of the old and new word values.
pub proof fn lemma_word_sum_update_word(data: Seq<u8>, j: int, i: int, hi: u8, lo: u8)
    requires
        0 <= j <= i,
        (i - j) % 2 == 0,
        i + 1 < data.len(),
    ensures
        word_sum_from(data.update(i, hi).update(i + 1, lo), j) == word_sum_from(data, j) - (
        data[i] * 256 + data[i + 1]) + (hi * 256 + lo),
    decreases i - j,
{
    let d2 = data.update(i, hi).update(i + 1, lo);
    if j == i {
        lemma_word_sum_from_agree(d2, data, i + 2);
    } else {
        lemma_word_sum_update_word(data, j + 2, i, hi, lo);
    }
}

/// An aligned word never exceeds the word sum of the region that holds it.
pub proof fn lemma_word_le_word_sum(data: Seq<u8>, i: int)
    requires
        0 <= i,
        i % 2 == 0,
        i + 1 < data.len(),
    ensures
        data[i] * 256 + data[i + 1] <= word_sum(data),
{
    lemma_word_sum_update_word(data, 0, i, 0, 0);
    lemma_word_sum_from_nonneg(data.update(i, 0u8).update(i + 1, 0u8), 0);
}

/// Checksum round trip: adding the computed checksum back into the word sum
/// folds to 0xFFFF, the all-ones verification value.
pub proof fn lemma_checksum_round_trip(data: Seq<u8>)
    ensures
        fold_carries(word_sum(data) + spec_ip_checksum(data)) == 0xFFFF,
{
    let s = word_sum(data);
    lemma_word_sum_from_nonneg(data, 0);
    let f = fold_carries(s);
    lemma_fold_carries_range(s);
    lemma_fold_carries_le(s);
    lemma_fold_carries_congruent(s);
    let c = spec_ip_checksum(data);
    assert(c == 0xFFFF - f);
    let z = s + c;
    assert(z >= 0xFFFF);
    lemma_sub_mod_noop(s, f, 0xFFFF);
    assert((s - f) % 0xFFFF == 0) by {
        assert((s % 0xFFFF - f % 0xFFFF) % 0xFFFF == (s - f) % 0xFFFF);
        assert(s % 0xFFFF - f % 0xFFFF == 0);
        lemma_small_mod(0, 0xFFFF);
    }
    lemma_mod_multiples_vanish(1, s - f, 0xFFFF);
    assert(z % 0xFFFF == 0);
    let r = fold_carries(z);
    lemma_fold_carries_range(z);
    lemma_fold_carries_pos(z);
    lemma_fold_carries_congruent(z);
    if r < 0xFFFF {
        lemma_small_mod(r as nat, 0xFFFF);
    }
}

/// Writing the computed checksum into a zeroed aligned slot yields a region
/// whose own checksum is zero, i.e. whose verification sum is all ones.
pub proof fn lemma_checksum_verifies(data: Seq<u8>, i: int)
    requires
        0 <= i,
        i % 2 == 0,
        i + 1 < data.len(),
        data[i] == 0,
        data[i + 1] == 0,
    ensures
        ({
            let c = spec_ip_checksum(data);
            let filled = data.update(i, (c / 256) as u8).update(i + 1, (c % 256) as u8);
            &&& fold_carries(word_sum(filled)) == 0xFFFF
            &&& spec_ip_checksum(filled) == 0
        }),
{
    let c = spec_ip_checksum(data);
    let hi = (c / 256) as u8;
    let lo = (c % 256) as u8;
    let filled = data.update(i, hi).update(i + 1, lo);
    lemma_fundamental_div_mod(c as int, 256);
    lemma_word_sum_update_word(data, 0, i, hi, lo);
    assert(word_sum(filled) == word_sum(data) + c);
    lemma_checksum_round_trip(data);
}

/// Incremental equivalence: recomputing the checksum from scratch after one
/// aligned 16-bit field changed gives the same result as updating the old
/// checksum incrementally with the old and new field values, provided the
/// changed region's word sum is not zero (it never is for a region that
/// holds any nonzero byte).
pub proof fn lemma_incremental_update(data: Seq<u8>, i: int, hi: u8, lo: u8)
    requires
        0 <= i,
        i % 2 == 0,
        i + 1 < data.len(),
        word_sum(data.update(i, hi).update(i + 1, lo)) > 0,
    ensures
        ({
            let old_val = (data[i] * 256 + data[i + 1]) as u16;
            let new_val = (hi * 256 + lo) as u16;
            let changed = data.update(i, hi).update(i + 1, lo);
            spec_update_checksum(spec_ip_checksum(data), old_val, new_val) == spec_ip_checksum(
                changed)
        }),
{
    let old_val = data[i] * 256 + data[i + 1];
    let new_val = hi * 256 + lo;
    let changed = data.update(i, hi).update(i + 1, lo);
    let s = word_sum(data);
    let s2 = word_sum(changed);
    lemma_word_sum_update_word(data, 0, i, hi, lo);
    assert(s2 == s - old_val + new_val);
    lemma_word_sum_from_nonneg(data, 0);
    lemma_word_le_word_sum(data, i);
    let f = fold_carries(s);
    lemma_fold_carries_range(s);
    lemma_fold_carries_le(s);
    lemma_fold_carries_congruent(s);
    let cs = spec_ip_checksum(data);
    assert(cs == 0xFFFF - f);
    // The accumulator that the incremental update folds.
    let arg = f + (0xFFFF - old_val) + new_val;
    assert(spec_update_checksum(cs as u16, old_val as u16, new_val as u16) == (0xFFFF
        - fold_carries(arg)) as u16);
    // arg and s2 agree modulo 0xFFFF: arg == s2 + (0xFFFF - (s - f)) and
    // s - f is a multiple of 0xFFFF.
    lemma_sub_mod_noop(s, f, 0xFFFF);
    assert((s - f) % 0xFFFF == 0) by {
        assert((s % 0xFFFF - f % 0xFFFF) % 0xFFFF == (s - f) % 0xFFFF);
        lemma_small_mod(0, 0xFFFF);
    }
    let k = (s - f) / 0xFFFF;
    lemma_fundamental_div_mod(s - f, 0xFFFF);
    assert(s - f == 0xFFFF * k);
    assert(arg == s2 - 0xFFFF * k + 0xFFFF);
    assert(arg == 0xFFFF * (1 - k) + s2);
    lemma_mod_multiples_vanish(1 - k, s2, 0xFFFF);
    assert(arg % 0xFFFF == s2 % 0xFFFF);
    // arg is positive: f folds s, which is at least old_val.
    if s > 0 {
        lemma_fold_carries_pos(s);
    }
    assert(arg > 0);
    lemma_fold_carries_equal(arg, s2);
}

/// Computes the Internet checksum over a byte region: the one's complement
/// of the carry-folded sum of its big-endian 16-bit words.  The length bound
/// keeps the 32-bit accumulator from overflowing and admits any IPv4 packet.
pub fn ip_checksum(data: &[u8]) -> (r: u16)
    requires
        data@.len() <= 0x20000,
    ensures
        r == spec_ip_checksum(data@),
{
    let n = data.len();
    let mut sum: u32 = 0;
    let mut i: usize = 0;
    proof {
        lemma_word_sum_from_nonneg(data@, 0);
    }
    while i < n
        invariant
            n == data@.len() <= 0x20000,
            i <= n,
            i % 2 == 0 || i == n,
            sum + word_sum_from(data@, i as int) == word_sum(data@),
            sum <= ((i + 1) / 2) * 0xFFFF,
        decreases n - i,
    {
        proof {
            lemma_word_sum_from_nonneg(data@, i as int);
            lemma_word_sum_from_nonneg(data@, i + 2);
        }
        if i + 1 < n {
            let word: u32 = (data[i] as u32) * 256 + (data[i + 1] as u32);
            sum = sum + word;
            i = i + 2;
        } else {
            let word: u32 = (data[i] as u32) * 256;
            sum = sum + word;
            i = i + 1;
        }
    }
    while sum >= 0x10000
        invariant
            fold_carries(sum as int) == fold_carries(word_sum(data@)),
        decreases sum,
    {
        proof {
            lemma_fundamental_div_mod(sum as int, 0x10000);
        }
        sum = sum % 0x10000 + sum / 0x10000;
    }
    proof {
        lemma_word_sum_from_nonneg(data@, 0);
        lemma_fold_carries_range(word_sum(data@));
    }
    (0xFFFF - sum) as u16
}

/// Updates a checksum incrementally after a single 16-bit field of the
/// checksummed region changed from `old_val` to `new_val`: the complements
/// of the old checksum and the old value and the new value are summed and
/// the carries folded, as RFC 1624 prescribes.
pub fn update_checksum(old_sum: u16, old_val: u16, new_val: u16) -> (r: u16)
    ensures
        r == spec_update_checksum(old_sum, old_val, new_val),
{
    let start: u32 = (0xFFFF - old_sum as u32) + (0xFFFF - old_val as u32) + (new_val as u32);
    let mut sum: u32 = start;
    while sum >= 0x10000
        invariant
            fold_carries(sum as int) == fold_carries(start as int),
        decreases sum,
    {
        proof {
            lemma_fundamental_div_mod(sum as int, 0x10000);
        }
        sum = sum % 0x10000 + sum / 0x10000;
    }
    proof {
        lemma_fold_carries_range(start as int);
    }
    (0xFFFF - sum) as u16
}

} // verus!
