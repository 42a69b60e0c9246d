//! Validation kernel of a fixed-size magnitude-spectrum processor.
//!
//! A processor is bound at construction to a block length `N > 0`; every
//! block handed to it afterwards must hold exactly `N` samples. The types
//! here decide, for every size and every block, whether the work may go on
//! or which error is owed.
use vstd::prelude::*;

pub mod block;
pub mod error;

pub use block::BlockSize;
pub use error::SpectrumError;
