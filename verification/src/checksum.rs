//! The Internet checksum: the 16-bit one's-complement sum of RFC 1071.

use crate::byteorder_wrapper::{read_u16_as_be, read_u8, spec_u16_be_bytes, ByteCursor};
use vstd::prelude::*;

verus! {

/// The sum of the big-endian 16-bit words of `bytes`. A trailing odd byte is
/// the high byte of a last word whose low byte is zero.
pub open spec fn word_sum(bytes: Seq<u8>) -> nat
    decreases bytes.len(),
{
    if bytes.len() == 0 {
        0
    } else if bytes.len() % 2 == 1 {
        word_sum(bytes.drop_last()) + bytes.last() as nat * 0x100
    } else {
        word_sum(bytes.take(bytes.len() - 2)) + bytes[bytes.len() - 2] as nat * 0x100
            + bytes[bytes.len() - 1] as nat
    }
}

/// Folds the carries above bit 15 back into the low 16 bits until none is left.
pub open spec fn fold16(n: nat) -> nat
    decreases n,
{
    if n < 0x1_0000 {
        n
    } else {
        fold16(n / 0x1_0000 + n % 0x1_0000)
    }
}

/// The checksum of `bytes`: the complement of their folded word sum.
pub open spec fn spec_checksum(bytes: Seq<u8>) -> u16 {
    (0xffff - fold16(word_sum(bytes))) as u16
}

/// Folding yields a 16-bit value that is congruent to its argument modulo
/// 0xffff, never exceeds it, and is zero only for zero.
pub proof fn lemma_fold16(n: nat)
    ensures
        fold16(n) <= 0xffff,
        fold16(n) <= n,
        fold16(n) % 0xffff == n % 0xffff,
        n > 0 ==> fold16(n) > 0,
    decreases n,
{
    if n >= 0x1_0000 {
        let m = n / 0x1_0000 + n % 0x1_0000;
        assert(m == n - 0xffff * (n / 0x1_0000));
        lemma_fold16(m);
    }
}

/// A positive multiple of 0xffff folds to 0xffff.
pub proof fn lemma_fold16_of_multiple(n: nat)
    requires
        n > 0,
        n % 0xffff == 0,
    ensures
        fold16(n) == 0xffff,
{
    lemma_fold16(n);
}

/// A sum and the complement of its fold add up to what folds to 0xffff.
pub proof fn lemma_complement_folds_to_ones(s: nat)
    ensures
        fold16(s) <= 0xffff,
        fold16((s + (0xffff - fold16(s))) as nat) == 0xffff,
{
    lemma_fold16(s);
    let f = fold16(s);
    let n = (s + (0xffff - f)) as nat;
    let q = s / 0xffff;
    let r = s % 0xffff;
    assert(s == 0xffff * q + r);
    if f == 0xffff {
        assert(r == 0);
        assert(n == 0xffff * q);
    } else {
        assert(f == r);
        assert(n == 0xffff * (q + 1));
    }
    assert(n % 0xffff == 0);
    lemma_fold16_of_multiple(n);
}

/// Two more bytes behind an even number of bytes add one word to the sum.
pub proof fn lemma_word_sum_push_word(bytes: Seq<u8>, hi: u8, lo: u8)
    requires
        bytes.len() % 2 == 0,
    ensures
        word_sum(bytes + seq![hi, lo]) == word_sum(bytes) + hi as nat * 0x100 + lo as nat,
{
    let all = bytes + seq![hi, lo];
    assert(all.take(all.len() - 2) =~= bytes);
}

/// One more byte behind an even number of bytes adds a word with a zero low
/// byte to the sum.
pub proof fn lemma_word_sum_push_byte(bytes: Seq<u8>, hi: u8)
    requires
        bytes.len() % 2 == 0,
    ensures
        word_sum(bytes.push(hi)) == word_sum(bytes) + hi as nat * 0x100,
{
    assert(bytes.push(hi).drop_last() =~= bytes);
}

/// Behind an even number of bytes, the word sum of what follows adds up.
pub proof fn lemma_word_sum_concat(a: Seq<u8>, b: Seq<u8>)
    requires
        a.len() % 2 == 0,
    ensures
        word_sum(a + b) == word_sum(a) + word_sum(b),
    decreases b.len(),
{
    let all = a + b;
    if b.len() == 0 {
        assert(all =~= a);
    } else if b.len() % 2 == 1 {
        assert(all.drop_last() =~= a + b.drop_last());
        lemma_word_sum_concat(a, b.drop_last());
    } else {
        assert(all.take(all.len() - 2) =~= a + b.take(b.len() - 2));
        lemma_word_sum_concat(a, b.take(b.len() - 2));
    }
}

/// Zero bytes at the end do not change the checksum.
pub proof fn lemma_checksum_zero_padding(bytes: Seq<u8>, padded: Seq<u8>)
    requires
        bytes.len() <= padded.len(),
        forall|i: int| 0 <= i < bytes.len() ==> padded[i] == bytes[i],
        forall|i: int| bytes.len() <= i < padded.len() ==> padded[i] == 0,
    ensures
        word_sum(padded) == word_sum(bytes),
        spec_checksum(padded) == spec_checksum(bytes),
    decreases padded.len() - bytes.len(),
{
    if padded.len() == bytes.len() {
        assert(padded =~= bytes);
    } else if padded.len() % 2 == 1 {
        lemma_checksum_zero_padding(bytes, padded.drop_last());
    } else if padded.len() - 1 == bytes.len() {
        assert(padded.take(padded.len() - 2) =~= bytes.drop_last());
        assert(padded[padded.len() - 2] == bytes.last());
    } else {
        lemma_checksum_zero_padding(bytes, padded.take(padded.len() - 2));
    }
}

/// Computes the Internet checksum of the first `length` bytes of `buf`.
///
/// Fails with `err` exactly when `buf` holds fewer than `length` bytes.
pub fn calculate_checksum_u16<E: Copy>(buf: &[u8], length: u16, err: E) -> (r: Result<u16, E>)
    ensures
        length <= buf@.len() ==> r == Ok::<u16, E>(spec_checksum(buf@.take(length as int))),
        length > buf@.len() ==> r == Err::<u16, E>(err),
{
    let mut sum: u32 = 0;
    let mut size: u16 = length;
    let mut reader = ByteCursor::new(buf);

    while size > 1
        invariant
            size <= length,
            (length - size) % 2 == 0,
            length - size <= buf@.len(),
            reader.source() == buf@,
            reader.position() == length - size,
            sum == word_sum(buf@.take(length - size)),
            sum <= (length - size) / 2 * 0xffff,
        decreases size,
    {
        let ghost done = (length - size) as int;
        let word = match read_u16_as_be(&mut reader, err) {
            Ok(word) => word,
            Err(e) => {
                return Err(e);
            },
        };
        proof {
            let prefix = buf@.take(done);
            lemma_word_sum_push_word(prefix, buf@[done], buf@[done + 1]);
            assert(prefix + seq![buf@[done], buf@[done + 1]] =~= buf@.take(done + 2));
        }
        sum = sum + word as u32;
        size = size - 2;
    }

    if size == 1 {
        let ghost done = (length - size) as int;
        let byte = match read_u8(&mut reader, err) {
            Ok(byte) => byte,
            Err(e) => {
                return Err(e);
            },
        };
        proof {
            lemma_word_sum_push_byte(buf@.take(done), buf@[done]);
            assert(buf@.take(done).push(buf@[done]) =~= buf@.take(length as int));
        }
        sum = sum + byte as u32 * 0x100;
    }
    let ghost total = sum as nat;

    while sum > 0xffff
        invariant
            fold16(sum as nat) == fold16(total),
        decreases sum,
    {
        sum = sum % 0x1_0000 + sum / 0x1_0000;
    }

    Ok((0xffff - sum) as u16)
}

/// Two more bytes behind an odd number of bytes: the first fills the low
/// byte of the open word, the second opens a word of its own.
pub proof fn lemma_word_sum_push_word_odd(bytes: Seq<u8>, first: u8, second: u8)
    requires
        bytes.len() % 2 == 1,
    ensures
        word_sum(bytes + seq![first, second]) == word_sum(bytes) + first as nat + second as nat
            * 0x100,
{
    let even = bytes.drop_last();
    let last = bytes.last();
    let all = bytes + seq![first, second];
    assert(all.drop_last() =~= even + seq![last, first]);
    lemma_word_sum_push_word(even, last, first);
}

/// What a byte at position `i` weighs in the word sum: it is the high byte
/// of its word at an even position and the low byte at an odd one.
pub open spec fn spec_weight(i: int) -> nat {
    if i % 2 == 0 {
        0x100
    } else {
        1
    }
}

/// Whether two bytes differ in exactly one bit.
pub open spec fn spec_one_bit_apart(a: u8, b: u8) -> bool {
    let x = a ^ b;
    x == 1 || x == 2 || x == 4 || x == 8 || x == 16 || x == 32 || x == 64 || x == 128
}

/// Bytes that differ in exactly one bit differ by a power of two.
pub proof fn lemma_one_bit_apart(a: u8, b: u8)
    requires
        spec_one_bit_apart(a, b),
    ensures
        ({
            let d = if a > b {
                a - b
            } else {
                b - a
            };
            d == 1 || d == 2 || d == 4 || d == 8 || d == 16 || d == 32 || d == 64 || d == 128
        }),
{
    assert(a ^ b == 1 ==> a == b + 1 || b == a + 1) by (bit_vector);
    assert(a ^ b == 2 ==> a == b + 2 || b == a + 2) by (bit_vector);
    assert(a ^ b == 4 ==> a == b + 4 || b == a + 4) by (bit_vector);
    assert(a ^ b == 8 ==> a == b + 8 || b == a + 8) by (bit_vector);
    assert(a ^ b == 16 ==> a == b + 16 || b == a + 16) by (bit_vector);
    assert(a ^ b == 32 ==> a == b + 32 || b == a + 32) by (bit_vector);
    assert(a ^ b == 64 ==> a == b + 64 || b == a + 64) by (bit_vector);
    assert(a ^ b == 128 ==> a == b + 128 || b == a + 128) by (bit_vector);
}

/// Changing one byte changes the word sum by the change of the byte times
/// the byte's weight.
pub proof fn lemma_word_sum_update(bytes: Seq<u8>, i: int, b: u8)
    requires
        0 <= i < bytes.len(),
    ensures
        word_sum(bytes.update(i, b)) + bytes[i] * spec_weight(i) == word_sum(bytes) + b
            * spec_weight(i),
    decreases bytes.len(),
{
    let changed = bytes.update(i, b);
    let n = bytes.len() as int;
    if n % 2 == 1 {
        if i == n - 1 {
            assert(changed.drop_last() =~= bytes.drop_last());
        } else {
            assert(changed.drop_last() =~= bytes.drop_last().update(i, b));
            lemma_word_sum_update(bytes.drop_last(), i, b);
        }
    } else {
        if i >= n - 2 {
            assert(changed.take(n - 2) =~= bytes.take(n - 2));
        } else {
            assert(changed.take(n - 2) =~= bytes.take(n - 2).update(i, b));
            lemma_word_sum_update(bytes.take(n - 2), i, b);
        }
    }
}

/// One flipped bit is always noticed: where a buffer sums to zero, the
/// buffer with any one bit flipped does not.
pub proof fn lemma_one_bit_breaks_checksum(bytes: Seq<u8>, i: int, b: u8)
    requires
        0 <= i < bytes.len(),
        spec_checksum(bytes) == 0,
        spec_one_bit_apart(bytes[i], b),
    ensures
        spec_checksum(bytes.update(i, b)) != 0,
{
    lemma_one_bit_apart(bytes[i], b);
    lemma_word_sum_update(bytes, i, b);
    let s = word_sum(bytes);
    let t = word_sum(bytes.update(i, b));
    lemma_fold16(s);
    lemma_fold16(t);
    let d: int = if bytes[i] > b {
        (bytes[i] - b) * spec_weight(i)
    } else {
        (b - bytes[i]) * spec_weight(i)
    };
    assert(0 < d < 0xffff);
    assert(t == s + d || t == s - d);
    assert(s % 0xffff == 0);
    let q = s / 0xffff;
    assert(s == 0xffff * q);
    if t == s + d {
        assert(t == 0xffff * q + d);
        assert(t % 0xffff == d);
    } else {
        assert(q >= 1);
        assert(t == 0xffff * (q - 1) + (0xffff - d));
        assert(t % 0xffff == 0xffff - d);
    }
}

/// A checksum field that holds the checksum of the buffer with that field
/// zeroed makes the whole buffer sum to zero, wherever the field stands, as
/// long as an even number of bytes comes before it.
pub proof fn lemma_checksum_field(prefix: Seq<u8>, suffix: Seq<u8>)
    requires
        prefix.len() % 2 == 0,
    ensures
        spec_checksum(
            prefix + spec_u16_be_bytes(spec_checksum(prefix + seq![0u8, 0u8] + suffix)) + suffix,
        ) == 0,
{
    let c = spec_checksum(prefix + seq![0u8, 0u8] + suffix);
    let hi = (c / 0x100) as u8;
    let lo = (c % 0x100) as u8;
    let s = word_sum(prefix) + word_sum(suffix);
    assert(word_sum(prefix + seq![0u8, 0u8] + suffix) == s) by {
        lemma_word_sum_push_word(prefix, 0, 0);
        lemma_word_sum_concat(prefix + seq![0u8, 0u8], suffix);
    }
    assert(word_sum(prefix + spec_u16_be_bytes(c) + suffix) == s + c) by {
        assert(spec_u16_be_bytes(c) =~= seq![hi, lo]);
        lemma_word_sum_push_word(prefix, hi, lo);
        lemma_word_sum_concat(prefix + seq![hi, lo], suffix);
    }
    lemma_complement_folds_to_ones(s);
}

/// A buffer followed by its own checksum sums to zero: with `c` the checksum
/// of `b` followed by two zero bytes, the checksum of `b` followed by the two
/// bytes of `c` is 0.
///
/// This holds for every `b` of even length. Behind an odd number of bytes the
/// two checksum bytes fall into different words, and the sum is zero only
/// when the two bytes of `c` are equal.
pub proof fn lemma_checksum_of_checksummed(b: Seq<u8>)
    requires
        b.len() % 2 == 0 || spec_checksum(b + seq![0u8, 0u8]) / 0x100 == spec_checksum(
            b + seq![0u8, 0u8],
        ) % 0x100,
    ensures
        spec_checksum(b + spec_u16_be_bytes(spec_checksum(b + seq![0u8, 0u8]))) == 0,
{
    let c = spec_checksum(b + seq![0u8, 0u8]);
    if b.len() % 2 == 0 {
        lemma_checksum_field(b, Seq::<u8>::empty());
        assert(b + seq![0u8, 0u8] + Seq::<u8>::empty() =~= b + seq![0u8, 0u8]);
        assert(b + spec_u16_be_bytes(c) + Seq::<u8>::empty() =~= b + spec_u16_be_bytes(c));
    } else {
        let hi = (c / 0x100) as u8;
        let lo = (c % 0x100) as u8;
        let s = word_sum(b);
        assert(word_sum(b + seq![0u8, 0u8]) == s) by {
            lemma_word_sum_push_word_odd(b, 0, 0);
        }
        assert(word_sum(b + spec_u16_be_bytes(c)) == s + c) by {
            assert(spec_u16_be_bytes(c) =~= seq![hi, lo]);
            lemma_word_sum_push_word_odd(b, hi, lo);
        }
        lemma_complement_folds_to_ones(s);
    }
}

} // verus!
