//! The error-correction level: one of four ordinal values, with increasing
//! error-correction strength and decreasing usable data capacity at a fixed
//! version.

use vstd::prelude::*;

verus! {

/// Error-correction level of a symbol, chosen by the caller and invariant
/// across one encode call.
#[derive(Debug, Clone, Copy, PartialEq, Eq)]
pub enum ECL {
    /// Recovers about 7% of damaged codewords.
    L,
    /// Recovers about 15% of damaged codewords.
    M,
    /// Recovers about 25% of damaged codewords.
    Q,
    /// Recovers about 30% of damaged codewords.
    H,
}

} // verus!
