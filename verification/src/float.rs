//! What the consumers need of 64-bit floats.

use vstd::prelude::*;

verus! {

/// The two operations on 64-bit floats that the consumers rely on.
///
/// This library carries a float as its IEEE 754 bit pattern and never
/// computes with it. Rendering one and streaming one are left to the
/// implementation that the caller passes in.
pub trait Floats {
    /// The debug text of the float with the bit pattern `bits`.
    fn debug_text(&self, bits: u64) -> String;

    /// Streams the float with the bit pattern `bits` as a float.
    fn stream(&self, bits: u64, stream: &mut sval::value::Stream<'_>) -> Result<(), sval::Error>;
}

} // verus!
