use vstd::prelude::*;

verus! {

/// Conditions under which a basis cannot be reduced.
#[derive(Debug, Clone, Copy, PartialEq, Eq, Structural)]
pub enum ReduceError {
    /// The supplied rows do not form a matrix of the declared positive dimensions.
    InvalidDimensions,
    /// The reduction parameter lies outside the open interval (1/4, 1).
    InvalidParameter,
    /// A Gram-Schmidt vector of the basis has zero length: the rows are linearly dependent.
    DegenerateBasis,
}

} // verus!
