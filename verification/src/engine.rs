//! The checksum of an input: pad, sum the words, cut to the width.

use vstd::prelude::*;
use crate::checksum::calculate_checksum;
use crate::model::checksum;
use crate::padding::pad;
use crate::width::Width;

verus! {

/// The checksum of `bytes` at the given width. The input may be empty and of
/// any length: it is padded first. The result fits in the width.
pub fn compute(bytes: &[u8], width: Width) -> (sum: u32)
    ensures
        sum == checksum(bytes@, width),
        sum < width.modulus(),
{
    let padded_contents: Vec<u8> = pad(bytes, width);
    calculate_checksum(padded_contents.as_slice(), width.bits())
}

/// What is reported of an input: the width, the checksum, and the number of
/// bytes that the input had before it was padded.
#[derive(Clone, Copy, Debug, PartialEq, Eq, Structural)]
pub struct Report {
    pub width: Width,
    pub checksum: u32,
    pub count: usize,
}

/// The report for `bytes` at the given width. The count is that of `bytes`
/// themselves: padding enters the checksum only.
pub fn summarize(bytes: &[u8], width: Width) -> (report: Report)
    ensures
        report.width == width,
        report.checksum == checksum(bytes@, width),
        report.count == bytes@.len(),
{
    Report { width, checksum: compute(bytes, width), count: bytes.len() }
}

} // verus!
