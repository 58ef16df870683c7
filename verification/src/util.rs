//! The Internet checksum over 16-bit big-endian words, with one word excluded
//! from the sum: the checksum field itself, so that the sum of everything
//! else re-derives the field.

use vstd::prelude::*;
use vstd::arithmetic::div_mod::{
    lemma_add_mod_noop, lemma_fundamental_div_mod, lemma_mod_multiples_vanish, lemma_small_mod,
    lemma_sub_mod_noop,
};
use vstd::arithmetic::mul::lemma_mul_inequality;

verus! {

/// Number of 16-bit words that cover `len` bytes; an odd trailing byte forms
/// a final word of its own.
pub open spec fn num_words(len: int) -> int {
    (len + 1) / 2
}

/// The word at word index `i`: two bytes in network byte order, or, for a
/// lone trailing byte, that byte as the high byte of a word whose low byte
/// is zero.
pub open spec fn word_at(data: Seq<u8>, i: int) -> int
    recommends
        0 <= i < num_words(data.len() as int),
{
    if 2 * i + 1 < data.len() {
        data[2 * i] * 256 + data[2 * i + 1]
    } else {
        data[2 * i] * 256
    }
}

/// Sum of the first `n` words of `data`, leaving out the word at index
/// `skip`.
pub open spec fn sum_words_upto(data: Seq<u8>, skip: int, n: int) -> int
    decreases n,
{
    if n <= 0 {
        0
    } else {
        sum_words_upto(data, skip, n - 1) + if n - 1 == skip {
            0
        } else {
            word_at(data, n - 1)
        }
    }
}

/// The skip index, clamped to the index of the last full word of a buffer of
/// `len` bytes: an index beyond the buffer skips nothing meaningful.
pub open spec fn clamped_skip(skip: int, len: int) -> int {
    if skip <= len / 2 - 1 {
        skip
    } else {
        len / 2 - 1
    }
}

/// The 32-bit accumulator after summing every word of `data` but the one at
/// the (clamped) skip index.
pub open spec fn wire_sum(data: Seq<u8>, skip: int) -> int {
    sum_words_upto(
        data,
        clamped_skip(skip, data.len() as int),
        num_words(data.len() as int),
    ) % 0x1_0000_0000
}

/// The 32-bit accumulator after summing every word of `data`, none excluded.
pub open spec fn wire_sum_all(data: Seq<u8>) -> int {
    sum_words_upto(data, -1, num_words(data.len() as int)) % 0x1_0000_0000
}

/// Folds the carries of an accumulator back into its low 16 bits until the
/// value fits in 16 bits.
pub open spec fn fold16(s: int) -> int
    recommends
        s >= 0,
    decreases s,
{
    if s < 0x10000 {
        s
    } else {
        fold16(s / 0x10000 + s % 0x10000)
    }
}

/// The Internet checksum of `data` with the word at `skip` excluded: the
/// ones' complement of the folded sum.
pub open spec fn checksum_of(data: Seq<u8>, skip: int) -> int {
    0xFFFF - fold16(wire_sum(data, skip))
}

/// `data` with the checksum over it (word `skip` excluded) written in
/// network byte order into the two bytes of word `skip`.
pub open spec fn patched(data: Seq<u8>, skip: int) -> Seq<u8> {
    data.update(2 * skip, (checksum_of(data, skip) / 256) as u8).update(
        2 * skip + 1,
        (checksum_of(data, skip) % 256) as u8,
    )
}

/// Sums all big-endian 16-bit words of `data`, excluding the word at index
/// `skipword` (clamped to the last full word), accumulating modulo 2^32.
pub fn sum_be_words(data: &[u8], skipword: usize) -> (r: u32)
    requires
        data@.len() >= 2,
    ensures
        r == wire_sum(data@, skipword as int),
{
    let len: usize = data.len();
    let full: usize = len / 2;
    let words: usize = if len % 2 == 1 {
        full + 1
    } else {
        full
    };
    let skip: usize = if skipword <= full - 1 {
        skipword
    } else {
        full - 1
    };
    let mut sum: u32 = 0;
    let mut i: usize = 0;
    while i < words
        invariant
            2 <= len == data@.len(),
            full == len / 2,
            words == num_words(len as int),
            skip as int == clamped_skip(skipword as int, len as int),
            i <= words,
            sum == sum_words_upto(data@, skip as int, i as int) % 0x1_0000_0000,
        decreases words - i,
    {
        let w: u16 = if 2 * i + 1 < len {
            (data[2 * i] as u16) * 256 + (data[2 * i + 1] as u16)
        } else {
            (data[2 * i] as u16) * 256
        };
        if i != skip {
            proof {
                lemma_add_mod_noop(
                    sum_words_upto(data@, skip as int, i as int),
                    w as int,
                    0x1_0000_0000,
                );
                lemma_small_mod(w as nat, 0x1_0000_0000);
            }
            let wide: u64 = sum as u64 + w as u64;
            sum = (wide % 0x1_0000_0000) as u32;
        }
        i = i + 1;
    }
    sum
}

/// The Internet checksum of `data`, skipping the word at `location`: the
/// ones' complement of the carry-folded sum of all other words.
pub fn get_checksum(data: &[u8], location: usize) -> (r: u16)
    requires
        data@.len() >= 2,
    ensures
        r == checksum_of(data@, location as int),
{
    let mut sum: u32 = sum_be_words(data, location);
    while sum >= 0x10000
        invariant
            fold16(sum as int) == fold16(wire_sum(data@, location as int)),
        decreases sum,
    {
        sum = sum / 0x10000 + sum % 0x10000;
    }
    (0xFFFF - sum) as u16
}

/// Computes the checksum of `data` with word `location` excluded and writes
/// it in network byte order into the two bytes of that word.
pub fn set_checksum(data: &mut Vec<u8>, location: usize)
    requires
        old(data)@.len() >= 2,
        2 * location + 1 < old(data)@.len(),
    ensures
        final(data)@ == patched(old(data)@, location as int),
        final(data)@.len() == old(data)@.len(),
{
    let len: usize = data.len();
    assert(2 * location + 1 < len);
    let sum: u16 = get_checksum(data.as_slice(), location);
    data.set(location * 2, (sum / 256) as u8);
    data.set(location * 2 + 1, (sum % 256) as u8);
}

/// Folding keeps the accumulator's value modulo 0xFFFF, lands in
/// [0, 0xFFFF], never grows, and never turns a positive sum into zero.
pub proof fn lemma_fold16_props(s: int)
    requires
        s >= 0,
    ensures
        0 <= fold16(s) < 0x10000,
        fold16(s) <= s,
        fold16(s) % 0xFFFF == s % 0xFFFF,
        s >= 1 ==> fold16(s) >= 1,
    decreases s,
{
    if s >= 0x10000 {
        let s2: int = s / 0x10000 + s % 0x10000;
        lemma_fundamental_div_mod(s, 0x10000);
        assert(s == s2 + 0xFFFF * (s / 0x10000));
        lemma_fold16_props(s2);
        lemma_mod_multiples_vanish(s / 0x10000, s2, 0xFFFF);
    }
}

/// Two buffers of equal length whose words agree everywhere but at `skip`
/// have the same skipped sum.
pub proof fn lemma_sum_same_but_skip(a: Seq<u8>, b: Seq<u8>, skip: int, n: int)
    requires
        a.len() == b.len(),
        forall|i: int| 0 <= i < n && i != skip ==> word_at(a, i) == word_at(b, i),
    ensures
        sum_words_upto(a, skip, n) == sum_words_upto(b, skip, n),
    decreases n,
{
    if n > 0 {
        lemma_sum_same_but_skip(a, b, skip, n - 1);
    }
}

/// A skip index at or beyond the first `n` words leaves the sum of those
/// words complete.
pub proof fn lemma_sum_skip_out_of_range(data: Seq<u8>, skip: int, n: int)
    requires
        n <= skip,
    ensures
        sum_words_upto(data, -1, n) == sum_words_upto(data, skip, n),
    decreases n,
{
    if n > 0 {
        lemma_sum_skip_out_of_range(data, skip, n - 1);
    }
}

/// The sum of all of the first `n` words equals the sum that skips word
/// `skip` plus the skipped word itself.
pub proof fn lemma_sum_split(data: Seq<u8>, skip: int, n: int)
    requires
        0 <= skip < n,
    ensures
        sum_words_upto(data, -1, n) == sum_words_upto(data, skip, n) + word_at(data, skip),
    decreases n,
{
    if skip == n - 1 {
        lemma_sum_skip_out_of_range(data, skip, n - 1);
    } else {
        lemma_sum_split(data, skip, n - 1);
    }
}

/// The skipped sum of `n` words lies between 0 and n * 0xFFFF.
pub proof fn lemma_sum_bounds(data: Seq<u8>, skip: int, n: int)
    requires
        n >= 0,
    ensures
        0 <= sum_words_upto(data, skip, n) <= n * 0xFFFF,
    decreases n,
{
    if n > 0 {
        lemma_sum_bounds(data, skip, n - 1);
    }
}

/// Law: recomputing the checksum over the patched buffer, again skipping
/// word `k`, reproduces the value just written into that word.
pub proof fn lemma_checksum_of_patched(data: Seq<u8>, k: int)
    requires
        data.len() >= 2,
        0 <= k,
        2 * k + 1 < data.len(),
    ensures
        checksum_of(patched(data, k), k) == checksum_of(data, k),
{
    let w: int = num_words(data.len() as int);
    let p: Seq<u8> = patched(data, k);
    assert forall|i: int| 0 <= i < w && i != k implies word_at(p, i) == word_at(data, i) by {
        assert(2 * i != 2 * k && 2 * i != 2 * k + 1);
        assert(2 * i + 1 != 2 * k && 2 * i + 1 != 2 * k + 1);
    }
    lemma_sum_same_but_skip(p, data, k, w);
}

/// Law: after the checksum is patched into word `k`, summing every word of
/// the buffer — the checksum word now included — and folding the carries
/// yields 0xFFFF, so a receiver's verification of the sum succeeds.
pub proof fn lemma_checksum_self_verifies(data: Seq<u8>, k: int)
    requires
        data.len() >= 2,
        data.len() <= 131071,  // the 32-bit accumulator must not wrap
        0 <= k,
        2 * k + 1 < data.len(),
    ensures
        fold16(wire_sum_all(patched(data, k))) == 0xFFFF,
{
    let len: int = data.len() as int;
    let w: int = num_words(len);
    let p: Seq<u8> = patched(data, k);
    let c: int = checksum_of(data, k);
    let s: int = sum_words_upto(data, k, w);

    // with no wrap and the skip index in range, the accumulator is the sum itself
    lemma_sum_bounds(data, k, w);
    assert(w <= 65536);
    lemma_mul_inequality(w, 65536, 0xFFFF);
    lemma_small_mod(s as nat, 0x1_0000_0000);
    assert(wire_sum(data, k) == s);
    lemma_fold16_props(s);
    let f: int = fold16(s);
    assert(c == 0xFFFF - f);

    // the patched buffer carries the checksum in word k and is otherwise unchanged
    lemma_fundamental_div_mod(c, 256);
    assert(word_at(p, k) == c);
    assert forall|i: int| 0 <= i < w && i != k implies word_at(p, i) == word_at(data, i) by {
        assert(2 * i != 2 * k && 2 * i != 2 * k + 1);
        assert(2 * i + 1 != 2 * k && 2 * i + 1 != 2 * k + 1);
    }
    lemma_sum_same_but_skip(p, data, k, w);
    lemma_sum_split(p, k, w);
    let t: int = sum_words_upto(p, -1, w);
    assert(t == s + c);
    lemma_small_mod(t as nat, 0x1_0000_0000);
    assert(wire_sum_all(p) == t);

    // t differs from a multiple of 0xFFFF by exactly 0xFFFF and is positive,
    // so its folded value is 0xFFFF
    lemma_fold16_props(t);
    let d: int = s - f;
    lemma_sub_mod_noop(s, f, 0xFFFF);
    assert(d % 0xFFFF == 0);
    assert(t == d + 0xFFFF);
    lemma_add_mod_noop(d, 0xFFFF, 0xFFFF);
    assert(t % 0xFFFF == 0);
    assert(fold16(t) % 0xFFFF == 0);
    assert(fold16(t) >= 1);
    if fold16(t) < 0xFFFF {
        lemma_small_mod(fold16(t) as nat, 0xFFFF);
        assert(false);
    }
}

} // verus!
