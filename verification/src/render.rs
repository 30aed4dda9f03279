//! How a checksum and the input are written out.

use vstd::prelude::*;
use vstd::slice::slice_subrange;
use crate::width::Width;

verus! {

/// The number of bytes of the input that one line of the display holds.
pub const LINE_BYTES: usize = 80;

/// The lowercase hexadecimal digit for a number below sixteen, in ASCII.
pub open spec fn hex_digit(v: nat) -> u8 {
    if v < 10 {
        (0x30 + v) as u8
    } else {
        (0x61 + (v - 10)) as u8
    }
}

/// The last `digits` hexadecimal digits of `value`, the highest first, with
/// zeros in front where the value is short.
pub open spec fn hex_text(value: nat, digits: nat) -> Seq<u8>
    decreases digits,
{
    if digits == 0 {
        Seq::empty()
    } else {
        hex_text(value / 16, (digits - 1) as nat).push(hex_digit(value % 16))
    }
}

/// A hexadecimal text has as many digits as were asked for.
pub proof fn lemma_hex_text_len(value: nat, digits: nat)
    ensures
        hex_text(value, digits).len() == digits,
    decreases digits,
{
    if digits > 0 {
        lemma_hex_text_len(value / 16, (digits - 1) as nat);
    }
}

/// The checksum in lowercase hexadecimal, in ASCII: one digit for every four
/// bits of the width, so two, four or eight of them.
pub fn checksum_hex(checksum: u32, width: Width) -> (text: Vec<u8>)
    ensures
        text@ == hex_text(checksum as nat, (width.bits_spec() / 4) as nat),
        4 * text@.len() == width.bits_spec(),
{
    let digits: usize = width.hex_digits();
    let mut text: Vec<u8> = Vec::new();
    let mut filled: usize = 0;
    while filled < digits
        invariant
            filled <= digits,
            text@.len() == filled,
        decreases digits - filled,
    {
        text.push(0x30);
        filled = filled + 1;
    }
    let mut rest: u32 = checksum;
    let mut left: usize = digits;
    proof {
        lemma_hex_text_len(checksum as nat, digits as nat);
        assert(hex_text(checksum as nat, digits as nat) =~= hex_text(rest as nat, left as nat)
            + text@.subrange(left as int, digits as int));
    }
    while left > 0
        invariant
            left <= digits,
            text@.len() == digits,
            hex_text(checksum as nat, digits as nat) == hex_text(rest as nat, left as nat)
                + text@.subrange(left as int, digits as int),
        decreases left,
    {
        let low: u32 = rest % 16;
        let digit: u8 = if low < 10 {
            0x30 + (low as u8)
        } else {
            0x61 + ((low - 10) as u8)
        };
        let ghost before = text@;
        left = left - 1;
        text.set(left, digit);
        proof {
            assert(hex_text(rest as nat, (left + 1) as nat) + before.subrange(
                left + 1,
                digits as int,
            ) =~= hex_text((rest / 16) as nat, left as nat) + text@.subrange(
                left as int,
                digits as int,
            ));
        }
        rest = rest / 16;
    }
    proof {
        assert(text@ =~= hex_text(rest as nat, 0) + text@.subrange(0, digits as int));
    }
    text
}

/// The number of lines that an input of `len` bytes is displayed on.
pub open spec fn line_count(len: nat) -> nat {
    (len + LINE_BYTES - 1) as nat / (LINE_BYTES as nat)
}

/// The bytes of line `k` of the display: eighty of them, or what is left of
/// the input on its last line.
pub open spec fn line_bytes(bytes: Seq<u8>, k: int) -> Seq<u8> {
    bytes.subrange(LINE_BYTES * k, line_end_spec(bytes.len() as int, LINE_BYTES * k))
}

/// Where the line that begins at `start` ends: eighty bytes on, or at the end
/// of the input where that comes first.
pub open spec fn line_end_spec(len: int, start: int) -> int {
    if start + LINE_BYTES <= len {
        start + LINE_BYTES
    } else {
        len
    }
}

/// Where the line that begins at `start` ends, in an input of `len` bytes.
pub fn line_end(len: usize, start: usize) -> (end: usize)
    requires
        start <= len,
    ensures
        end == line_end_spec(len as int, start as int),
        start <= end <= len,
{
    if len - start >= LINE_BYTES {
        start + LINE_BYTES
    } else {
        len
    }
}

/// The text that `String::from_utf8_lossy` makes of a sequence of bytes.
pub uninterp spec fn lossy_text(bytes: Seq<u8>) -> Seq<char>;

/// Decodes bytes as UTF-8 with `String::from_utf8_lossy`, which puts the
/// replacement character in the place of what is not valid UTF-8 and so
/// never fails. The text is taken on trust to depend on the bytes alone;
/// nothing more is claimed of it.
#[verifier::external_body]
fn decode_lossy(chunk: &[u8]) -> (text: String)
    ensures
        text@ == lossy_text(chunk@),
{
    String::from_utf8_lossy(chunk).into_owned()
}

/// The input as it is displayed: cut into lines of eighty bytes, each line
/// decoded on its own and leniently. An empty input has no line.
pub fn display_lines(bytes: &[u8]) -> (lines: Vec<String>)
    ensures
        lines@.len() == line_count(bytes@.len()),
        forall|k: int|
            0 <= k < lines@.len() ==> (#[trigger] lines@[k])@ == lossy_text(
                line_bytes(bytes@, k),
            ),
{
    let len: usize = bytes.len();
    let mut lines: Vec<String> = Vec::new();
    let mut start: usize = 0;
    while start < len
        invariant
            len == bytes@.len(),
            start <= len,
            start == LINE_BYTES * lines@.len() || start == len,
            start == len ==> lines@.len() == line_count(len as nat),
            forall|k: int|
                0 <= k < lines@.len() ==> (#[trigger] lines@[k])@ == lossy_text(
                    line_bytes(bytes@, k),
                ),
        decreases len - start,
    {
        let end: usize = line_end(len, start);
        let line: String = decode_lossy(slice_subrange(bytes, start, end));
        lines.push(line);
        start = end;
    }
    lines
}

} // verus!
