use vstd::prelude::*;

verus! {

/// The Jacobian transpose solver, which moves the joints along the transposed
/// Jacobian applied to the position error.
#[derive(Debug, Clone, Copy, PartialEq, Eq)]
pub struct JacobianTranspose;

} // verus!
