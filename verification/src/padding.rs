//! Padding an input to a whole number of words.

use vstd::prelude::*;
use crate::model::{pad_len, padded, PAD_BYTE};
use crate::width::Width;

verus! {

/// How many padding bytes an input of `len` bytes needs: none at 8 bits, one
/// at 16 bits where `len` is odd, and at 32 bits what `len` lacks to the next
/// multiple of four.
pub fn padding_size(len: usize, width: Width) -> (n: usize)
    ensures
        n == pad_len(len as nat, width),
        n < width.word_bytes_spec(),
        (len + n) % (width.word_bytes_spec() as int) == 0,
{
    match width {
        Width::Bits8 => 0,
        Width::Bits16 => if len % 2 != 0 {
            1
        } else {
            0
        },
        Width::Bits32 => (4 - (len % 4)) % 4,
    }
}

/// A copy of `bytes` with its padding appended.
pub fn pad(bytes: &[u8], width: Width) -> (out: Vec<u8>)
    ensures
        out@ == padded(bytes@, width),
{
    let count: usize = padding_size(bytes.len(), width);
    let mut out: Vec<u8> = Vec::new();
    out.extend_from_slice(bytes);
    let mut added: usize = 0;
    while added < count
        invariant
            added <= count,
            out@ == bytes@ + Seq::new(added as nat, |i: int| PAD_BYTE),
        decreases count - added,
    {
        out.push(PAD_BYTE);
        added = added + 1;
        assert(out@ =~= bytes@ + Seq::new(added as nat, |i: int| PAD_BYTE));
    }
    out
}

} // verus!
