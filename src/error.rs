//! What can go wrong when patch data is decoded.

use vstd::prelude::*;

verus! {

/// An error in patch data.
#[derive(Debug, Clone, Copy, PartialEq, Eq, Structural)]
pub enum CodecError {
    /// The data has another length than its layout needs.
    Length { expected: usize, actual: usize },
    /// The name field holds a byte that is not ASCII.
    Name,
    /// The bytes do not frame a System Exclusive message of this library.
    Framing,
}

} // verus!
