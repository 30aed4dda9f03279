//! What holds of every checksum.

use vstd::prelude::*;
use crate::model::{
    big_endian, byte_or_zero, byte_sum, checksum, pad_len, padded, raw_checksum, running_sum_8,
    sum_of_words, word_at, word_sum, PAD_BYTE,
};
use crate::width::Width;

verus! {

/// The padded sequence begins with the input, goes on with `X` only, is less
/// than a word longer, and holds a whole number of words. An input that
/// already holds a whole number of words is left as it is.
pub proof fn lemma_padded_shape(bytes: Seq<u8>, width: Width)
    ensures
        padded(bytes, width).len() == bytes.len() + pad_len(bytes.len(), width),
        pad_len(bytes.len(), width) < width.word_bytes_spec(),
        padded(bytes, width).len() % width.word_bytes_spec() == 0,
        padded(bytes, width).take(bytes.len() as int) == bytes,
        forall|i: int|
            bytes.len() <= i < padded(bytes, width).len() ==> padded(bytes, width)[i] == PAD_BYTE,
        bytes.len() % width.word_bytes_spec() == 0 ==> padded(bytes, width) == bytes,
{
    let p = padded(bytes, width);
    assert(p.take(bytes.len() as int) =~= bytes);
    if bytes.len() % width.word_bytes_spec() == 0 {
        assert(p =~= bytes);
    }
}

/// At 8 bits nothing is ever added.
pub proof fn lemma_padding_at_8(bytes: Seq<u8>)
    ensures
        padded(bytes, Width::Bits8) == bytes,
{
    lemma_padded_shape(bytes, Width::Bits8);
}

/// At 16 bits an input of odd length gets one `X`, and one of even length
/// nothing.
pub proof fn lemma_padding_at_16(bytes: Seq<u8>)
    ensures
        padded(bytes, Width::Bits16) == if bytes.len() % 2 == 0 {
            bytes
        } else {
            bytes.push(PAD_BYTE)
        },
{
    assert(padded(bytes, Width::Bits16) =~= if bytes.len() % 2 == 0 {
        bytes
    } else {
        bytes.push(PAD_BYTE)
    });
}

/// At 32 bits an input gets as many `X` as its length lacks to the next
/// multiple of four: none, one, two or three.
pub proof fn lemma_padding_at_32(bytes: Seq<u8>)
    ensures
        padded(bytes, Width::Bits32) == if bytes.len() % 4 == 0 {
            bytes
        } else if bytes.len() % 4 == 1 {
            bytes.push(PAD_BYTE).push(PAD_BYTE).push(PAD_BYTE)
        } else if bytes.len() % 4 == 2 {
            bytes.push(PAD_BYTE).push(PAD_BYTE)
        } else {
            bytes.push(PAD_BYTE)
        },
{
    assert(padded(bytes, Width::Bits32) =~= if bytes.len() % 4 == 0 {
        bytes
    } else if bytes.len() % 4 == 1 {
        bytes.push(PAD_BYTE).push(PAD_BYTE).push(PAD_BYTE)
    } else if bytes.len() % 4 == 2 {
        bytes.push(PAD_BYTE).push(PAD_BYTE)
    } else {
        bytes.push(PAD_BYTE)
    });
}

/// A word of one byte is that byte.
pub proof fn lemma_word_of_one(bytes: Seq<u8>, start: int)
    ensures
        word_at(bytes, start, 1) == byte_or_zero(bytes, start),
{
    reveal_with_fuel(word_at, 2);
}

/// A word of two bytes has its first byte in the high place.
pub proof fn lemma_word_of_two(bytes: Seq<u8>, start: int)
    ensures
        word_at(bytes, start, 2) == 0x100 * byte_or_zero(bytes, start) + byte_or_zero(
            bytes,
            start + 1,
        ),
{
    reveal_with_fuel(word_at, 3);
}

/// A word of four bytes is big-endian: the first byte weighs most.
pub proof fn lemma_word_of_four(bytes: Seq<u8>, start: int)
    ensures
        word_at(bytes, start, 4) == 0x100_0000 * byte_or_zero(bytes, start) + 0x1_0000
            * byte_or_zero(bytes, start + 1) + 0x100 * byte_or_zero(bytes, start + 2)
            + byte_or_zero(bytes, start + 3),
{
    reveal_with_fuel(word_at, 5);
}

/// Where the `n` bytes from `start` on all lie within the sequence, the word
/// there is what those bytes spell.
pub proof fn lemma_full_word(bytes: Seq<u8>, start: int, n: nat)
    requires
        0 <= start,
        start + n <= bytes.len(),
    ensures
        word_at(bytes, start, n) == big_endian(bytes.subrange(start, start + n)),
    decreases n,
{
    if n > 0 {
        lemma_full_word(bytes, start, (n - 1) as nat);
        assert(bytes.subrange(start, start + n).drop_last() =~= bytes.subrange(
            start,
            start + n - 1,
        ));
    }
}

/// From a word's beginning on, a sequence that ends on a word's end sums to
/// what the words spell.
proof fn lemma_sum_of_full_words(bytes: Seq<u8>, start: int, width: Width)
    requires
        0 <= start <= bytes.len(),
        (bytes.len() - start) % (width.word_bytes_spec() as int) == 0,
    ensures
        word_sum(bytes, start, width.word_bytes_spec()) == sum_of_words(
            bytes.skip(start),
            width.word_bytes_spec(),
        ),
    decreases bytes.len() - start,
{
    let n = width.word_bytes_spec();
    if start < bytes.len() {
        lemma_full_word(bytes, start, n);
        lemma_sum_of_full_words(bytes, start + n, width);
        assert(bytes.skip(start).take(n as int) =~= bytes.subrange(start, start + n));
        assert(bytes.skip(start).skip(n as int) =~= bytes.skip(start + n));
    }
}

/// The checksum of an input is the sum of the big-endian words of the padded
/// input, modulo two to the power of the width.
pub proof fn lemma_checksum_is_sum_of_words(bytes: Seq<u8>, width: Width)
    ensures
        checksum(bytes, width) == sum_of_words(padded(bytes, width), width.word_bytes_spec())
            % width.modulus(),
{
    let p = padded(bytes, width);
    lemma_padded_shape(bytes, width);
    lemma_sum_of_full_words(p, 0, width);
    assert(p.skip(0) =~= p);
}

/// Words of one byte sum to the sum of the bytes.
proof fn lemma_sum_of_bytes(bytes: Seq<u8>)
    ensures
        sum_of_words(bytes, 1) == byte_sum(bytes),
    decreases bytes.len(),
{
    if bytes.len() > 0 {
        lemma_sum_of_bytes(bytes.skip(1));
        reveal_with_fuel(big_endian, 2);
        assert(bytes.take(1).drop_last().len() == 0);
    }
}

/// At 8 bits the checksum is the sum of all the bytes modulo 256, whatever
/// the length of the input.
pub proof fn lemma_checksum_at_8(bytes: Seq<u8>)
    ensures
        checksum(bytes, Width::Bits8) == byte_sum(bytes) % 256,
{
    lemma_checksum_is_sum_of_words(bytes, Width::Bits8);
    lemma_padding_at_8(bytes);
    lemma_sum_of_bytes(bytes);
}

/// One more byte at the end adds its value to the sum of the bytes.
pub proof fn lemma_byte_sum_push(bytes: Seq<u8>, last: u8)
    ensures
        byte_sum(bytes.push(last)) == byte_sum(bytes) + last,
    decreases bytes.len(),
{
    let longer = bytes.push(last);
    assert(byte_sum(longer) == longer[0] + byte_sum(longer.skip(1)));
    if bytes.len() == 0 {
        assert(longer.skip(1) =~= Seq::<u8>::empty());
        assert(byte_sum(longer.skip(1)) == 0);
    } else {
        lemma_byte_sum_push(bytes.skip(1), last);
        assert(longer.skip(1) =~= bytes.skip(1).push(last));
    }
}

/// Cutting the sum to eight bits after every addition gives what cutting it
/// once at the end gives.
pub proof fn lemma_running_sum_8(bytes: Seq<u8>)
    ensures
        running_sum_8(bytes) == byte_sum(bytes) % 0x100,
    decreases bytes.len(),
{
    if bytes.len() > 0 {
        lemma_running_sum_8(bytes.drop_last());
        lemma_byte_sum_push(bytes.drop_last(), bytes.last());
        assert(bytes.drop_last().push(bytes.last()) =~= bytes);
    }
}

/// At 8 bits the checksum is the running sum that is cut to eight bits after
/// every addition.
pub proof fn lemma_checksum_at_8_runs(bytes: Seq<u8>)
    ensures
        checksum(bytes, Width::Bits8) == running_sum_8(bytes),
{
    lemma_checksum_at_8(bytes);
    lemma_running_sum_8(bytes);
}

/// At 16 bits the checksum is the sum of the big-endian words of two bytes,
/// modulo 65536, of the input made even in length by one `X` where needed.
pub proof fn lemma_checksum_at_16(bytes: Seq<u8>)
    ensures
        checksum(bytes, Width::Bits16) == sum_of_words(
            if bytes.len() % 2 == 0 {
                bytes
            } else {
                bytes.push(PAD_BYTE)
            },
            2,
        ) % 0x1_0000,
{
    lemma_checksum_is_sum_of_words(bytes, Width::Bits16);
    lemma_padding_at_16(bytes);
}

/// At 32 bits the checksum is the sum of the big-endian words of four bytes,
/// modulo two to the power of 32, of the input brought to a multiple of four
/// in length by up to three `X`.
pub proof fn lemma_checksum_at_32(bytes: Seq<u8>)
    ensures
        checksum(bytes, Width::Bits32) == sum_of_words(
            if bytes.len() % 4 == 0 {
                bytes
            } else if bytes.len() % 4 == 1 {
                bytes.push(PAD_BYTE).push(PAD_BYTE).push(PAD_BYTE)
            } else if bytes.len() % 4 == 2 {
                bytes.push(PAD_BYTE).push(PAD_BYTE)
            } else {
                bytes.push(PAD_BYTE)
            },
            4,
        ) % 0x1_0000_0000,
{
    lemma_checksum_is_sum_of_words(bytes, Width::Bits32);
    lemma_padding_at_32(bytes);
}

/// The empty input has checksum zero at every width.
pub proof fn lemma_checksum_of_nothing(width: Width)
    ensures
        checksum(Seq::<u8>::empty(), width) == 0,
{
    lemma_padded_shape(Seq::<u8>::empty(), width);
}

/// A checksum fits in its width.
pub proof fn lemma_checksum_fits(bytes: Seq<u8>, width: Width)
    ensures
        checksum(bytes, width) < width.modulus(),
        raw_checksum(bytes, width) < width.modulus(),
{
}

} // verus!
