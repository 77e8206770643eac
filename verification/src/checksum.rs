//! The ICMP one's-complement checksum, for IPv4 and for IPv6 with its
//! pseudo-header.

use vstd::arithmetic::div_mod::{
    lemma_add_mod_noop, lemma_fundamental_div_mod, lemma_fundamental_div_mod_converse,
};
use vstd::prelude::*;

verus! {

/// ICMPv6's next-header value, which the IPv6 pseudo-header adds to the sum.
pub const NEXT_HEADER_ICMPV6: u32 = 58;

/// The 16-bit word with high byte `hi` and low byte `lo`.
pub open spec fn word(hi: u8, lo: u8) -> nat {
    (hi as nat) * 256 + (lo as nat)
}

/// The `k`-th big-endian 16-bit word of `bytes`. A trailing single byte is the
/// high byte of a word whose low byte is zero; past the end every word is zero.
pub open spec fn word_at(bytes: Seq<u8>, k: int) -> nat {
    if 2 * k + 1 < bytes.len() {
        word(bytes[2 * k], bytes[2 * k + 1])
    } else if 2 * k < bytes.len() {
        word(bytes[2 * k], 0)
    } else {
        0
    }
}

/// The sum of the first `n` words of `bytes`.
pub open spec fn words_sum(bytes: Seq<u8>, n: nat) -> nat
    decreases n,
{
    if n == 0 {
        0
    } else {
        words_sum(bytes, (n - 1) as nat) + word_at(bytes, n - 1)
    }
}

/// The sum of all 16-bit words of `bytes`, the last one zero-padded if the
/// length is odd.
pub open spec fn data_sum(bytes: Seq<u8>) -> nat {
    words_sum(bytes, ((bytes.len() + 1) / 2) as nat)
}

/// The sum of the eight 16-bit segments of an IPv6 address.
pub open spec fn segments_sum(segments: [u16; 8]) -> nat {
    (segments[0] + segments[1] + segments[2] + segments[3] + segments[4] + segments[5]
        + segments[6] + segments[7]) as nat
}

/// Folds the bits above the low sixteen back into the low sixteen, again and
/// again, until none are left above.
pub open spec fn fold(sum: nat) -> nat
    decreases sum,
{
    if sum < 0x10000 {
        sum
    } else {
        fold(sum / 0x10000 + sum % 0x10000)
    }
}

/// The one's complement, in 16 bits, of the folded `sum`.
pub open spec fn complement_of(sum: nat) -> u16 {
    (0xFFFF - fold(sum)) as u16
}

/// The ICMPv4 checksum of `bytes`: there is no pseudo-header.
pub open spec fn spec_checksum_v4(bytes: Seq<u8>) -> u16 {
    complement_of(data_sum(bytes))
}

/// The ICMPv6 checksum of `bytes`: the pseudo-header adds both addresses, the
/// upper-layer `length` and the next-header value 58.
pub open spec fn spec_checksum_v6(
    bytes: Seq<u8>,
    src: [u16; 8],
    dst: [u16; 8],
    length: u32,
) -> u16 {
    complement_of(data_sum(bytes) + segments_sum(src) + segments_sum(dst) + length as nat + 58)
}

/// `bytes` with the 16-bit `value` stored big-endian in the checksum field, at
/// offsets 2 and 3.
pub open spec fn with_checksum(bytes: Seq<u8>, value: u16) -> Seq<u8> {
    bytes.update(2, (value / 256) as u8).update(3, (value % 256) as u8)
}

/// One folding step on a 32-bit accumulator: the high half is added to the
/// low half. The fold of the accumulator stays what it was.
fn fold_step(acc: u32) -> (folded: u32)
    ensures
        folded == acc / 0x10000 + acc % 0x10000,
        fold(folded as nat) == fold(acc as nat),
        folded <= 0x1FFFE,
{
    assert(acc >> 16 == acc / 0x10000) by (bit_vector);
    assert(acc & 0xFFFF == acc % 0x10000) by (bit_vector);
    (acc >> 16) + (acc & 0xFFFF)
}

/// Folds a 64-bit accumulator down to sixteen bits.
fn fold_all(sum: u64) -> (folded: u16)
    ensures
        folded == fold(sum as nat),
{
    let mut acc: u64 = sum;
    while acc >> 16 != 0
        invariant
            fold(acc as nat) == fold(sum as nat),
        decreases acc,
    {
        assert(acc >> 16 == acc / 0x10000) by (bit_vector);
        assert(acc & 0xFFFF == acc % 0x10000) by (bit_vector);
        acc = (acc >> 16) + (acc & 0xFFFF);
    }
    assert(acc >> 16 == acc / 0x10000) by (bit_vector);
    acc as u16
}

/// The folded sum of the 16-bit words of `data`. The accumulator has 32 bits
/// and is folded early whenever the next word might not fit, so the result is
/// that of an unbounded sum for data of any length.
fn folded_data_sum(data: &[u8]) -> (folded: u16)
    ensures
        folded == fold(data_sum(data@)),
{
    let len: usize = data.len();
    let mut acc: u32 = 0;
    let mut at: usize = 0;
    let ghost mut words: nat = 0;
    while len - at >= 2
        invariant
            len == data@.len(),
            at == 2 * words,
            at <= len,
            fold(acc as nat) == fold(words_sum(data@, words)),
        decreases len - at,
    {
        if acc > 0xFFFF_0000 {
            acc = fold_step(acc);
        }
        let value: u32 = (data[at] as u32) * 256 + (data[at + 1] as u32);
        proof {
            assert(value == word_at(data@, words as int));
            lemma_fold_add(acc as nat, words_sum(data@, words), value as nat);
            words = words + 1;
        }
        acc = acc + value;
        at = at + 2;
    }
    if at < len {
        if acc > 0xFFFF_0000 {
            acc = fold_step(acc);
        }
        let value: u32 = (data[at] as u32) * 256;
        proof {
            assert(value == word_at(data@, words as int));
            lemma_fold_add(acc as nat, words_sum(data@, words), value as nat);
            words = words + 1;
        }
        acc = acc + value;
    }
    assert(words == (data@.len() + 1) / 2);
    fold_all(acc as u64)
}

/// The sum of the eight segments of an IPv6 address.
fn sum_segments(segments: &[u16; 8]) -> (sum: u32)
    ensures
        sum == segments_sum(*segments),
{
    segments[0] as u32 + segments[1] as u32 + segments[2] as u32 + segments[3] as u32
        + segments[4] as u32 + segments[5] as u32 + segments[6] as u32 + segments[7] as u32
}

/// Computes the ICMPv4 checksum of `data`: the one's complement of the
/// folded sum of its big-endian 16-bit words.
pub fn checksum_v4(data: &[u8]) -> (checksum: u16)
    ensures
        checksum == spec_checksum_v4(data@),
{
    let folded: u16 = folded_data_sum(data);
    proof {
        lemma_fold_idempotent(data_sum(data@));
    }
    assert(!folded == 0xFFFF - folded) by (bit_vector);
    !folded
}

/// Computes the ICMPv6 checksum of `data`: to the words of `data` the
/// pseudo-header adds the segments of the source and destination addresses
/// `net.0` and `net.1`, the upper-layer `length`, and the next-header value 58.
pub fn checksum_v6(data: &[u8], net: ([u16; 8], [u16; 8]), length: u32) -> (checksum: u16)
    ensures
        checksum == spec_checksum_v6(data@, net.0, net.1, length),
{
    let words: u16 = folded_data_sum(data);
    let pseudo: u64 = sum_segments(&net.0) as u64 + sum_segments(&net.1) as u64 + length as u64
        + NEXT_HEADER_ICMPV6 as u64;
    let folded: u16 = fold_all(words as u64 + pseudo);
    proof {
        lemma_fold_idempotent(data_sum(data@));
        lemma_fold_add(words as nat, data_sum(data@), pseudo as nat);
        lemma_fold_idempotent(data_sum(data@) + pseudo as nat);
    }
    assert(!folded == 0xFFFF - folded) by (bit_vector);
    !folded
}

/// Folding has a closed form: zero stays zero, and a positive sum lands on
/// the one value in `1..=0xFFFF` that is congruent to it modulo `0xFFFF`.
pub proof fn lemma_fold_closed_form(sum: nat)
    ensures
        fold(sum) == (if sum == 0 { 0 } else { (sum - 1) % 0xFFFF + 1 }),
    decreases sum,
{
    if sum >= 0x10000 {
        lemma_fold_closed_form(sum / 0x10000 + sum % 0x10000);
    }
}

/// Sums with equal folds keep equal folds when the same amount is added to
/// both.
pub proof fn lemma_fold_add(a: nat, b: nat, extra: nat)
    requires
        fold(a) == fold(b),
    ensures
        fold(a + extra) == fold(b + extra),
{
    lemma_fold_closed_form(a);
    lemma_fold_closed_form(b);
    lemma_fold_closed_form(a + extra);
    lemma_fold_closed_form(b + extra);
    if a > 0 && b > 0 {
        lemma_add_mod_noop(a - 1, extra as int, 0xFFFF);
        lemma_add_mod_noop(b - 1, extra as int, 0xFFFF);
    }
}

/// Adding the one's complement of a folded sum to the sum gives a sum that
/// folds to `0xFFFF`, the one's-complement zero.
pub proof fn lemma_complement_cancels(sum: nat)
    ensures
        fold(sum) <= 0xFFFF,
        fold((sum + 0xFFFF - fold(sum)) as nat) == 0xFFFF,
{
    lemma_fold_closed_form(sum);
    if sum > 0 {
        let quotient: int = (sum - 1) / 0xFFFF;
        let total: nat = (sum + 0xFFFF - fold(sum)) as nat;
        lemma_fundamental_div_mod(sum - 1, 0xFFFF);
        assert(total - 1 == 0xFFFF * quotient + 0xFFFE);
        lemma_fundamental_div_mod_converse(total - 1, 0xFFFF, quotient, 0xFFFE);
        lemma_fold_closed_form(total);
    } else {
        assert(fold(0xFFFF) == 0xFFFF);
    }
}

/// Folding twice is folding once.
pub proof fn lemma_fold_idempotent(sum: nat)
    ensures
        fold(fold(sum)) == fold(sum),
        fold(sum) <= 0xFFFF,
{
    lemma_fold_closed_form(sum);
}

/// Replacing the word in the checksum field changes the sum of the first `n`
/// words by exactly the difference of the two words.
proof fn lemma_words_sum_patched(bytes: Seq<u8>, value: u16, n: nat)
    requires
        bytes.len() >= 4,
    ensures
        words_sum(with_checksum(bytes, value), n) + (if n >= 2 { word_at(bytes, 1) } else { 0 })
            == words_sum(bytes, n) + (if n >= 2 { value as nat } else { 0 }),
    decreases n,
{
    if n > 0 {
        lemma_words_sum_patched(bytes, value, (n - 1) as nat);
        let patched = with_checksum(bytes, value);
        assert(patched.len() == bytes.len());
        if n - 1 != 1 {
            assert(word_at(patched, n - 1) == word_at(bytes, n - 1));
        } else {
            assert(word_at(patched, 1) == value as nat);
        }
    }
}

/// Storing a value in the checksum field changes the data sum by the
/// difference between that value and the word the field held.
pub proof fn lemma_data_sum_patched(bytes: Seq<u8>, value: u16)
    requires
        bytes.len() >= 4,
    ensures
        data_sum(with_checksum(bytes, value)) + word_at(bytes, 1) == data_sum(bytes) + value,
{
    lemma_words_sum_patched(bytes, value, ((bytes.len() + 1) / 2) as nat);
}

/// The checksum self-check for IPv4: take any message of at least four
/// bytes, zero its checksum field, compute the checksum, and store it in the
/// field. The checksum of the result is zero.
pub proof fn lemma_checksum_v4_verifies(bytes: Seq<u8>)
    requires
        bytes.len() >= 4,
    ensures
        spec_checksum_v4(
            with_checksum(bytes, spec_checksum_v4(with_checksum(bytes, 0))),
        ) == 0,
{
    let zeroed = with_checksum(bytes, 0);
    let value: u16 = spec_checksum_v4(zeroed);
    assert(with_checksum(zeroed, value) =~= with_checksum(bytes, value));
    lemma_data_sum_patched(zeroed, value);
    assert(word_at(zeroed, 1) == 0);
    lemma_complement_cancels(data_sum(zeroed));
}

/// The checksum self-check for IPv6: as for IPv4, with the same
/// pseudo-header in both computations.
pub proof fn lemma_checksum_v6_verifies(bytes: Seq<u8>, src: [u16; 8], dst: [u16; 8], length: u32)
    requires
        bytes.len() >= 4,
    ensures
        spec_checksum_v6(
            with_checksum(bytes, spec_checksum_v6(with_checksum(bytes, 0), src, dst, length)),
            src,
            dst,
            length,
        ) == 0,
{
    let zeroed = with_checksum(bytes, 0);
    let value: u16 = spec_checksum_v6(zeroed, src, dst, length);
    let pseudo: nat = segments_sum(src) + segments_sum(dst) + length as nat + 58;
    assert(with_checksum(zeroed, value) =~= with_checksum(bytes, value));
    lemma_data_sum_patched(zeroed, value);
    assert(word_at(zeroed, 1) == 0);
    lemma_complement_cancels(data_sum(zeroed) + pseudo);
}

} // verus!
