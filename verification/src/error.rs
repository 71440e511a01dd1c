//! Error taxonomy for archive decoding.

use vstd::prelude::*;

verus! {

/// The ways a whole-file decode can fail. Any error aborts the entire
/// decode; there is never a partial result.
#[derive(Clone, Copy, Debug, PartialEq, Eq, Structural)]
pub enum Error {
    /// The input was not recognized as bzip2-framed compressed data.
    DecompressionUnsupported,
    /// A sub-block carried a tag outside the known product set.
    UnhandledProduct,
    /// Fewer bytes remained than a record or sample array requires.
    Truncated,
    /// Pointer or size arithmetic exceeded the target integer range.
    Overflow,
}

} // verus!
