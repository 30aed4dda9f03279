//! Additive checksums over byte sequences, at a width of 8, 16 or 32 bits.
//!
//! The bytes are padded with `X` to a whole number of words, read as
//! big-endian words of the chosen width, and summed; the checksum is the sum
//! reduced to the width.

pub mod width;
pub mod model;
pub mod checksum;
pub mod padding;
pub mod engine;
pub mod laws;
pub mod render;
pub mod args;
