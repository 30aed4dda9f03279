//! What a checksum is, as mathematics on sequences of bytes.

use vstd::prelude::*;
use crate::width::Width;

verus! {

/// The byte that fills the last word of an input whose length is not a whole
/// number of words: the letter `X`.
pub const PAD_BYTE: u8 = 0x58;

/// The byte at `i`, or zero where the sequence has none.
pub open spec fn byte_or_zero(bytes: Seq<u8>, i: int) -> nat {
    if 0 <= i < bytes.len() {
        bytes[i] as nat
    } else {
        0
    }
}

/// The big-endian value of the `n` bytes that begin at `start`. A byte that
/// lies past the end of the sequence counts as zero, so that a short last
/// group keeps its bytes in the high places.
pub open spec fn word_at(bytes: Seq<u8>, start: int, n: nat) -> nat
    decreases n,
{
    if n == 0 {
        0
    } else {
        256 * word_at(bytes, start, (n - 1) as nat) + byte_or_zero(bytes, start + n - 1)
    }
}

/// The sum of the words of `n` bytes that begin at `start`, `start + n`,
/// `start + 2 * n` and so on, as far as the sequence goes.
pub open spec fn word_sum(bytes: Seq<u8>, start: int, n: nat) -> nat
    decreases
            if start < bytes.len() {
                bytes.len() - start
            } else {
                0
            },
{
    if n == 0 || start < 0 || start >= bytes.len() {
        0
    } else {
        word_at(bytes, start, n) + word_sum(bytes, start + n, n)
    }
}

/// The checksum of a sequence as it stands, without padding: the sum of its
/// words, reduced to the width.
pub open spec fn raw_checksum(bytes: Seq<u8>, width: Width) -> nat {
    word_sum(bytes, 0, width.word_bytes_spec()) % width.modulus()
}

/// How many bytes of padding a sequence of `len` bytes gets: what `len`
/// lacks to the next whole number of words.
pub open spec fn pad_len(len: nat, width: Width) -> nat {
    match width {
        Width::Bits8 => 0,
        Width::Bits16 => if len % 2 == 0 {
            0
        } else {
            1
        },
        Width::Bits32 => ((4 - len % 4) % 4) as nat,
    }
}

/// The sequence with its padding appended.
pub open spec fn padded(bytes: Seq<u8>, width: Width) -> Seq<u8> {
    bytes + Seq::new(pad_len(bytes.len(), width), |i: int| PAD_BYTE)
}

/// The checksum of a sequence: that of the padded sequence.
pub open spec fn checksum(bytes: Seq<u8>, width: Width) -> nat {
    raw_checksum(padded(bytes, width), width)
}

/// The number that a group of bytes spells when read big-endian: the first
/// byte weighs most.
pub open spec fn big_endian(group: Seq<u8>) -> nat
    decreases group.len(),
{
    if group.len() == 0 {
        0
    } else {
        256 * big_endian(group.drop_last()) + group.last() as nat
    }
}

/// The sum of the big-endian words that a sequence splits into, `n` bytes to
/// a word. It is meant for a sequence that holds a whole number of words.
pub open spec fn sum_of_words(bytes: Seq<u8>, n: nat) -> nat
    decreases bytes.len(),
{
    if n == 0 || bytes.len() < n {
        0
    } else {
        big_endian(bytes.take(n as int)) + sum_of_words(bytes.skip(n as int), n)
    }
}

/// The sum of all the bytes.
pub open spec fn byte_sum(bytes: Seq<u8>) -> nat
    decreases bytes.len(),
{
    if bytes.len() == 0 {
        0
    } else {
        bytes[0] as nat + byte_sum(bytes.skip(1))
    }
}

/// The sum of the bytes as it runs when it is cut to eight bits after every
/// single addition.
pub open spec fn running_sum_8(bytes: Seq<u8>) -> nat
    decreases bytes.len(),
{
    if bytes.len() == 0 {
        0
    } else {
        (running_sum_8(bytes.drop_last()) + bytes.last() as nat) % 0x100
    }
}

} // verus!
