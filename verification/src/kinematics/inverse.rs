use vstd::prelude::*;

verus! {

/// The inverse-kinematics solvers the user can choose from, in the order of
/// the control panel's list.
#[derive(Debug, Clone, Copy, PartialEq, Eq)]
pub enum SolverKind {
    Transpose,
    PseudoInverse,
    PseudoInverseUndamped,
    DampedLeastSquares,
}

/// The number of solvers in the panel's list.
pub const SOLVER_COUNT: usize = 4;

/// The solver selected by a position in the panel's list; any position past
/// the third selects damped least squares.
pub open spec fn kind_at(index: usize) -> SolverKind {
    if index == 0 {
        SolverKind::Transpose
    } else if index == 1 {
        SolverKind::PseudoInverse
    } else if index == 2 {
        SolverKind::PseudoInverseUndamped
    } else {
        SolverKind::DampedLeastSquares
    }
}

/// The position of a solver in the panel's list.
pub open spec fn position_of(kind: SolverKind) -> usize {
    match kind {
        SolverKind::Transpose => 0,
        SolverKind::PseudoInverse => 1,
        SolverKind::PseudoInverseUndamped => 2,
        SolverKind::DampedLeastSquares => 3,
    }
}

impl SolverKind {
    pub fn from_index(index: usize) -> (kind: SolverKind)
        ensures
            kind == kind_at(index),
    {
        if index == 0 {
            SolverKind::Transpose
        } else if index == 1 {
            SolverKind::PseudoInverse
        } else if index == 2 {
            SolverKind::PseudoInverseUndamped
        } else {
            SolverKind::DampedLeastSquares
        }
    }

    pub fn index(&self) -> (index: usize)
        ensures
            index == position_of(*self),
    {
        match self {
            SolverKind::Transpose => 0,
            SolverKind::PseudoInverse => 1,
            SolverKind::PseudoInverseUndamped => 2,
            SolverKind::DampedLeastSquares => 3,
        }
    }
}

/// Every solver has its own position in the list, and that position selects
/// it again; every position selects a solver whose position is within the
/// list.
pub proof fn lemma_solver_positions_round_trip(kind: SolverKind, index: usize)
    ensures
        kind_at(position_of(kind)) == kind,
        position_of(kind) < SOLVER_COUNT,
        index < SOLVER_COUNT ==> position_of(kind_at(index)) == index,
        index >= SOLVER_COUNT ==> kind_at(index) == SolverKind::DampedLeastSquares,
{
}

} // verus!
