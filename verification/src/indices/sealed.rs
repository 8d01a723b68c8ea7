//! Closes the set of index types.

use vstd::prelude::*;

verus! {

/// Implemented for the integer types that can index vertices, and for no
/// other: the module is private, so no other crate can name this trait.
pub trait Sealed {

}

impl Sealed for u8 {

}

impl Sealed for u16 {

}

impl Sealed for u32 {

}

} // verus!
