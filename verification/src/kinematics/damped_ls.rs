use vstd::prelude::*;

verus! {

/// The damped-least-squares (Levenberg-Marquardt) solver, whose damping
/// grows as the arm approaches a singular pose.
#[derive(Debug, Clone, Copy, PartialEq, Eq)]
pub struct JacobianDLS;

} // verus!
