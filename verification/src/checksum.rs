//! The checksum engine: the sum of a byte sequence's words, computed.

use vstd::prelude::*;
use vstd::arithmetic::div_mod::lemma_mod_mod;
use crate::laws::{lemma_word_of_four, lemma_word_of_one, lemma_word_of_two};
use crate::model::{raw_checksum, word_at, word_sum};
use crate::width::width_of_bits;

verus! {

/// Shifting and or-ing two bytes together gives the big-endian number.
proof fn lemma_join_two(b0: u8, b1: u8)
    ensures
        ((b0 as u32) << 8) | (b1 as u32) == 0x100 * b0 + b1,
        (b0 as u32) << 8 == 0x100 * b0,
{
    assert(((b0 as u32) << 8) | (b1 as u32) == 0x100 * b0 + b1) by (bit_vector);
    assert((b0 as u32) << 8 == 0x100 * b0) by (bit_vector);
}

/// Shifting and or-ing four bytes together gives the big-endian number.
proof fn lemma_join_four(b0: u8, b1: u8, b2: u8, b3: u8)
    ensures
        ((b0 as u32) << 24) | ((b1 as u32) << 16) | ((b2 as u32) << 8) | (b3 as u32) == 0x100_0000
            * b0 + 0x1_0000 * b1 + 0x100 * b2 + b3,
        ((b0 as u32) << 24) | ((b1 as u32) << 16) | ((b2 as u32) << 8) == 0x100_0000 * b0
            + 0x1_0000 * b1 + 0x100 * b2,
        ((b0 as u32) << 24) | ((b1 as u32) << 16) == 0x100_0000 * b0 + 0x1_0000 * b1,
        (b0 as u32) << 24 == 0x100_0000 * b0,
{
    assert(((b0 as u32) << 24) | ((b1 as u32) << 16) | ((b2 as u32) << 8) | (b3 as u32)
        == 0x100_0000 * b0 + 0x1_0000 * b1 + 0x100 * b2 + b3) by (bit_vector);
    assert(((b0 as u32) << 24) | ((b1 as u32) << 16) | ((b2 as u32) << 8) == 0x100_0000 * b0
        + 0x1_0000 * b1 + 0x100 * b2) by (bit_vector);
    assert(((b0 as u32) << 24) | ((b1 as u32) << 16) == 0x100_0000 * b0 + 0x1_0000 * b1)
        by (bit_vector);
    assert((b0 as u32) << 24 == 0x100_0000 * b0) by (bit_vector);
}

/// The big-endian word of the two bytes at `i`, or of the one byte that is
/// left there.
fn read_word_of_two(data: &[u8], i: usize) -> (value: u32)
    requires
        i < data@.len(),
    ensures
        value == word_at(data@, i as int, 2),
{
    proof {
        lemma_word_of_two(data@, i as int);
    }
    let b0: u8 = data[i];
    if data.len() - i >= 2 {
        let b1: u8 = data[i + 1];
        proof {
            lemma_join_two(b0, b1);
        }
        ((b0 as u32) << 8) | (b1 as u32)
    } else {
        proof {
            lemma_join_two(b0, 0);
        }
        (b0 as u32) << 8
    }
}

/// The big-endian word of the four bytes at `i`, or of the bytes that are
/// left there, which then keep the high places.
fn read_word_of_four(data: &[u8], i: usize) -> (value: u32)
    requires
        i < data@.len(),
    ensures
        value == word_at(data@, i as int, 4),
{
    proof {
        lemma_word_of_four(data@, i as int);
    }
    let left: usize = data.len() - i;
    let b0: u8 = data[i];
    if left >= 4 {
        let b1: u8 = data[i + 1];
        let b2: u8 = data[i + 2];
        let b3: u8 = data[i + 3];
        proof {
            lemma_join_four(b0, b1, b2, b3);
        }
        ((b0 as u32) << 24) | ((b1 as u32) << 16) | ((b2 as u32) << 8) | (b3 as u32)
    } else if left == 3 {
        let b1: u8 = data[i + 1];
        let b2: u8 = data[i + 2];
        proof {
            lemma_join_four(b0, b1, b2, 0);
        }
        ((b0 as u32) << 24) | ((b1 as u32) << 16) | ((b2 as u32) << 8)
    } else if left == 2 {
        let b1: u8 = data[i + 1];
        proof {
            lemma_join_four(b0, b1, 0, 0);
        }
        ((b0 as u32) << 24) | ((b1 as u32) << 16)
    } else {
        proof {
            lemma_join_four(b0, 0, 0, 0);
        }
        (b0 as u32) << 24
    }
}

/// The sum from `start` is the word at `start` and the sum from the next
/// word on; where the sequence ends before that, from the end on.
proof fn lemma_word_sum_step(bytes: Seq<u8>, start: int, n: nat, next: int)
    requires
        0 <= start < bytes.len(),
        n > 0,
        next == start + n || (next == bytes.len() && next <= start + n),
    ensures
        word_sum(bytes, start, n) == word_at(bytes, start, n) + word_sum(bytes, next, n),
{
    assert(word_sum(bytes, start + n, n) == word_sum(bytes, next, n));
}

/// The checksum of `file_data` as it stands, at a width of `size` bits: its
/// big-endian words of that width are added up, the sum wrapping at 32 bits,
/// and the sum is cut to the width. A last group that is short of a word
/// counts with its bytes in the high places. The caller pads; see
/// [`crate::engine::compute`] for the checksum of unpadded input.
pub fn calculate_checksum(file_data: &[u8], size: u32) -> (checksum: u32)
    requires
        size == 8 || size == 16 || size == 32,
    ensures
        checksum == raw_checksum(file_data@, width_of_bits(size).unwrap()),
        checksum < width_of_bits(size).unwrap().modulus(),
{
    let len: usize = file_data.len();
    let ghost bytes = file_data@;
    let mut checksum: u32 = 0;
    let mut i: usize = 0;
    if size == 8 {
        while i < len
            invariant
                bytes == file_data@,
                len == bytes.len(),
                i <= len,
                checksum < 0x100,
                (checksum + word_sum(bytes, i as int, 1)) % 0x100 == word_sum(bytes, 0, 1) % 0x100,
            decreases len - i,
        {
            let byte: u8 = file_data[i];
            proof {
                lemma_word_of_one(bytes, i as int);
            }
            let added: u32 = checksum.wrapping_add(byte as u32);
            assert(added & 0xFF == added % 0x100) by (bit_vector);
            checksum = added & 0xFF;
            i = i + 1;
        }
    } else if size == 16 {
        while i < len
            invariant
                bytes == file_data@,
                len == bytes.len(),
                i <= len,
                (checksum + word_sum(bytes, i as int, 2)) % 0x1_0000_0000 == word_sum(bytes, 0, 2)
                    % 0x1_0000_0000,
            decreases len - i,
        {
            let value: u32 = read_word_of_two(file_data, i);
            let next: usize = if len - i >= 2 {
                i + 2
            } else {
                len
            };
            proof {
                lemma_word_sum_step(bytes, i as int, 2, next as int);
            }
            checksum = checksum.wrapping_add(value);
            i = next;
        }
        proof {
            let total = word_sum(bytes, 0, 2) as int;
            assert(checksum == total % 0x1_0000_0000);
            assert((total % 0x1_0000_0000) % 0x1_0000 == total % 0x1_0000) by {
                lemma_mod_mod(total, 0x1_0000, 0x1_0000);
            }
            assert(checksum & 0xFFFF == checksum % 0x1_0000) by (bit_vector);
        }
        checksum = checksum & 0xFFFF;
    } else {
        while i < len
            invariant
                bytes == file_data@,
                len == bytes.len(),
                i <= len,
                (checksum + word_sum(bytes, i as int, 4)) % 0x1_0000_0000 == word_sum(bytes, 0, 4)
                    % 0x1_0000_0000,
            decreases len - i,
        {
            let value: u32 = read_word_of_four(file_data, i);
            let next: usize = if len - i >= 4 {
                i + 4
            } else {
                len
            };
            proof {
                lemma_word_sum_step(bytes, i as int, 4, next as int);
            }
            checksum = checksum.wrapping_add(value);
            i = next;
        }
    }
    checksum
}

} // verus!
