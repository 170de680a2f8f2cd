//! The ways in which a decode adapter can fail.

use vstd::prelude::*;
use crate::pixel::LayoutError;

verus! {

/// Why a decode adapter produced no byte count.
#[derive(Clone, Copy, Debug, PartialEq, Eq, Structural)]
pub enum DecodeError {
    /// The decoder reported an error in the encoded input.
    Rejected,
    /// A destination buffer is shorter than what has to be written to it.
    BufferTooSmall,
    /// The decoded pixels do not fill the dimensions that the decoder reported.
    Layout(LayoutError),
}

} // verus!
