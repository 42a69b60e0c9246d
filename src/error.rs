use vstd::prelude::*;

verus! {

/// Why a processor could not be built, or why a block was refused.
#[derive(Debug, Clone, Copy, PartialEq, Eq, Structural)]
pub enum SpectrumError {
    /// The requested block length is zero, for which no transform exists.
    InvalidSize,
    /// A block did not hold exactly as many samples as the processor's length.
    LengthMismatch { expected: usize, actual: usize },
}

} // verus!
