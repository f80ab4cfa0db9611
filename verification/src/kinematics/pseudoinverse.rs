use vstd::prelude::*;

verus! {

/// The Jacobian pseudo-inverse solver, which damps itself when the arm is
/// near or at a singular pose.
#[derive(Debug, Clone, Copy, PartialEq, Eq)]
pub struct JacobianPseudoInverse;

/// The plain Jacobian pseudo-inverse solver, without damping; it fails at
/// singular poses.
#[derive(Debug, Clone, Copy, PartialEq, Eq)]
pub struct JacobianPseudoInverseUndamped;

} // verus!
