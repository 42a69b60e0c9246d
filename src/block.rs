use vstd::prelude::*;

use crate::error::SpectrumError;

verus! {

/// The fixed number of samples that every block handed to one processor
/// must hold. Never zero; never changed after construction.
#[derive(Debug, Clone, Copy, PartialEq, Eq, Structural)]
pub struct BlockSize {
    n: usize,
}

/// What checking a block of `len` samples against length `n` owes: success
/// exactly when the two agree, else a mismatch that names both.
pub open spec fn block_outcome(n: nat, len: nat) -> Result<(), SpectrumError> {
    if len == n {
        Ok(())
    } else {
        Err(SpectrumError::LengthMismatch { expected: n as usize, actual: len as usize })
    }
}

impl View for BlockSize {
    type V = nat;

    closed spec fn view(&self) -> nat {
        self.n as nat
    }
}

impl BlockSize {
    #[verifier::type_invariant]
    spec fn inv(&self) -> bool {
        self.n > 0
    }

    /// Binds a length for the life of a processor. A length of zero admits
    /// no transform and is refused.
    pub fn new(size: usize) -> (r: Result<BlockSize, SpectrumError>)
        ensures
            match r {
                Ok(b) => size > 0 && b@ == size as nat,
                Err(e) => size == 0 && e == SpectrumError::InvalidSize,
            },
    {
        if size == 0 {
            Err(SpectrumError::InvalidSize)
        } else {
            Ok(BlockSize { n: size })
        }
    }

    /// The bound length.
    pub fn len(&self) -> (r: usize)
        ensures
            r as nat == self@,
            r > 0,
    {
        proof {
            use_type_invariant(self);
        }
        self.n
    }

    /// Decides whether `samples` may be transformed: it must hold exactly
    /// the bound number of items. Only the slice's length is read.
    pub fn check_block<T>(&self, samples: &[T]) -> (r: Result<(), SpectrumError>)
        ensures
            r == block_outcome(self@, samples@.len()),
            r is Ok <==> samples@.len() == self@,
    {
        let len = samples.len();
        if len == self.n {
            Ok(())
        } else {
            Err(SpectrumError::LengthMismatch { expected: self.n, actual: len })
        }
    }
}

} // verus!
