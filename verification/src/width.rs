//! The three checksum widths and what each one fixes.

use vstd::prelude::*;

verus! {

/// A checksum width: the size of a word and of the result.
#[derive(Clone, Copy, Debug, PartialEq, Eq, Structural)]
pub enum Width {
    Bits8,
    Bits16,
    Bits32,
}

/// The width that a number of bits selects, if it selects one.
pub open spec fn width_of_bits(bits: u32) -> Option<Width> {
    if bits == 8 {
        Some(Width::Bits8)
    } else if bits == 16 {
        Some(Width::Bits16)
    } else if bits == 32 {
        Some(Width::Bits32)
    } else {
        None
    }
}

impl Width {
    /// The width in bits, as a number.
    pub open spec fn bits_spec(self) -> u32 {
        match self {
            Width::Bits8 => 8,
            Width::Bits16 => 16,
            Width::Bits32 => 32,
        }
    }

    /// The number of bytes in one word.
    pub open spec fn word_bytes_spec(self) -> nat {
        match self {
            Width::Bits8 => 1,
            Width::Bits16 => 2,
            Width::Bits32 => 4,
        }
    }

    /// Two to the power of the width: checksums are taken modulo this.
    pub open spec fn modulus(self) -> nat {
        match self {
            Width::Bits8 => 0x100,
            Width::Bits16 => 0x1_0000,
            Width::Bits32 => 0x1_0000_0000,
        }
    }

    /// The width for a number of bits: 8, 16 and 32 have one, and no other
    /// number has.
    pub fn from_bits(bits: u32) -> (r: Option<Width>)
        ensures
            r == width_of_bits(bits),
    {
        if bits == 8 {
            Some(Width::Bits8)
        } else if bits == 16 {
            Some(Width::Bits16)
        } else if bits == 32 {
            Some(Width::Bits32)
        } else {
            None
        }
    }

    #[verifier::when_used_as_spec(bits_spec)]
    pub fn bits(self) -> (bits: u32)
        ensures
            bits == self.bits_spec(),
            width_of_bits(bits) == Some(self),
    {
        match self {
            Width::Bits8 => 8,
            Width::Bits16 => 16,
            Width::Bits32 => 32,
        }
    }

    pub fn word_bytes(self) -> (n: usize)
        ensures
            n == self.word_bytes_spec(),
            8 * n == self.bits_spec(),
    {
        match self {
            Width::Bits8 => 1,
            Width::Bits16 => 2,
            Width::Bits32 => 4,
        }
    }

    /// The largest checksum of this width, which is also the mask that
    /// reduces a sum to the width.
    pub fn mask(self) -> (m: u32)
        ensures
            m == self.modulus() - 1,
    {
        match self {
            Width::Bits8 => 0xFF,
            Width::Bits16 => 0xFFFF,
            Width::Bits32 => 0xFFFF_FFFF,
        }
    }

    /// The number of hexadecimal digits that a checksum of this width is
    /// written with: one for every four bits.
    pub fn hex_digits(self) -> (n: usize)
        ensures
            4 * n == self.bits_spec(),
    {
        match self {
            Width::Bits8 => 2,
            Width::Bits16 => 4,
            Width::Bits32 => 8,
        }
    }
}

} // verus!
