//! Floating-point values, held as the bits that are uploaded.
//!
//! The runtime never computes with the numbers it passes to the GPU: it only
//! lays them out. Each value is therefore held as the IEEE-754 bit patterns of
//! its components, which are the bytes the driver reads.

use vstd::prelude::*;

verus! {

/// A 32-bit float.
#[derive(Clone, Copy, Debug, PartialEq, Eq, Structural)]
pub struct FloatBits(pub u32);

/// A vector of two 32-bit floats, first component first.
#[derive(Clone, Copy, Debug, PartialEq, Eq)]
pub struct Vec2Bits(pub [u32; 2]);

/// A matrix of four by four 32-bit floats, column after column.
#[derive(Clone, Copy, Debug, PartialEq, Eq)]
pub struct Mat4Bits(pub [u32; 16]);

} // verus!
