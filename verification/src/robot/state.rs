use vstd::prelude::*;

verus! {

/// The solver's status flags and iteration counter for one robot arm.
///
/// The arm's joint angles and the numeric error and manipulability that the
/// application displays beside these flags are floating-point values and are
/// kept by the application; this type holds everything the solver's rules
/// decide on.
#[derive(Debug, Clone, Copy, PartialEq, Eq)]
pub struct SolverStatus {
    pub iteration: usize,
    pub converged: bool,
    pub singular: bool,
    pub near_singular: bool,
    pub is_singular_now: bool,
    pub unreachable: bool,
    pub stalled: bool,
    pub constraint_blocked: bool,
    pub colliding: bool,
}

/// The status shown to the user, one per solver situation.
#[derive(Debug, Clone, Copy, PartialEq, Eq)]
pub enum StatusLabel {
    Singular,
    StalledLimit,
    Stalled,
    Unreachable,
    Converged,
    Solving,
}

/// How much damping the self-damping pseudo-inverse solver adds: the full
/// stability damping at a singular pose, half of it near one, none otherwise.
#[derive(Debug, Clone, Copy, PartialEq, Eq)]
pub enum PseudoInverseDamping {
    Full,
    Half,
    Undamped,
}

/// A status with no flag raised and no iteration done.
pub open spec fn cleared_status() -> SolverStatus {
    SolverStatus {
        iteration: 0,
        converged: false,
        singular: false,
        near_singular: false,
        is_singular_now: false,
        unreachable: false,
        stalled: false,
        constraint_blocked: false,
        colliding: false,
    }
}

impl SolverStatus {
    /// The solver has stopped: it converged, found the target out of reach,
    /// or ran out of iterations.
    pub open spec fn terminal(self) -> bool {
        self.converged || self.unreachable || self.stalled
    }

    pub open spec fn with_converged(self, iteration: usize) -> SolverStatus {
        SolverStatus {
            iteration,
            converged: true,
            singular: false,
            unreachable: false,
            stalled: false,
            constraint_blocked: false,
            ..self
        }
    }

    pub open spec fn with_singular(self, iteration: usize) -> SolverStatus {
        SolverStatus { iteration, converged: false, singular: true, ..self }
    }

    pub open spec fn with_unreachable(self, iteration: usize) -> SolverStatus {
        SolverStatus {
            iteration,
            converged: false,
            unreachable: true,
            constraint_blocked: false,
            ..self
        }
    }

    pub open spec fn with_stalled(self, iteration: usize) -> SolverStatus {
        SolverStatus { iteration, converged: false, stalled: true, ..self }
    }

    /// The label shown for a status: a singularity is reported first, then a
    /// stall at a joint limit, a plain stall, an unreachable target, and
    /// convergence; otherwise the solver is still working.
    pub open spec fn label_of(self) -> StatusLabel {
        if self.singular {
            StatusLabel::Singular
        } else if self.constraint_blocked {
            StatusLabel::StalledLimit
        } else if self.stalled {
            StatusLabel::Stalled
        } else if self.unreachable {
            StatusLabel::Unreachable
        } else if self.converged {
            StatusLabel::Converged
        } else {
            StatusLabel::Solving
        }
    }

    /// The damping chosen from the latest singularity analysis: a singular
    /// pose takes precedence over a near-singular one.
    pub open spec fn damping_of(self) -> PseudoInverseDamping {
        if self.is_singular_now {
            PseudoInverseDamping::Full
        } else if self.near_singular {
            PseudoInverseDamping::Half
        } else {
            PseudoInverseDamping::Undamped
        }
    }

    pub fn pseudo_inverse_damping(&self) -> (damping: PseudoInverseDamping)
        ensures
            damping == self.damping_of(),
    {
        if self.is_singular_now {
            PseudoInverseDamping::Full
        } else if self.near_singular {
            PseudoInverseDamping::Half
        } else {
            PseudoInverseDamping::Undamped
        }
    }

    pub fn new() -> (status: Self)
        ensures
            status == cleared_status(),
    {
        SolverStatus {
            iteration: 0,
            converged: false,
            singular: false,
            near_singular: false,
            is_singular_now: false,
            unreachable: false,
            stalled: false,
            constraint_blocked: false,
            colliding: false,
        }
    }

    /// Forgets every flag and the iteration count, so that the solver starts
    /// afresh.
    pub fn clear_solver_status(&mut self)
        ensures
            *final(self) == cleared_status(),
    {
        self.iteration = 0;
        self.converged = false;
        self.singular = false;
        self.near_singular = false;
        self.is_singular_now = false;
        self.unreachable = false;
        self.stalled = false;
        self.constraint_blocked = false;
        self.colliding = false;
    }

    pub fn mark_converged(&mut self, iteration: usize)
        ensures
            *final(self) == old(self).with_converged(iteration),
    {
        self.iteration = iteration;
        self.converged = true;
        self.singular = false;
        self.unreachable = false;
        self.stalled = false;
        self.constraint_blocked = false;
    }

    pub fn mark_singular(&mut self, iteration: usize)
        ensures
            *final(self) == old(self).with_singular(iteration),
    {
        self.iteration = iteration;
        self.converged = false;
        self.singular = true;
    }

    pub fn mark_unreachable(&mut self, iteration: usize)
        ensures
            *final(self) == old(self).with_unreachable(iteration),
    {
        self.iteration = iteration;
        self.converged = false;
        self.unreachable = true;
        self.constraint_blocked = false;
    }

    pub fn mark_stalled(&mut self, iteration: usize)
        ensures
            *final(self) == old(self).with_stalled(iteration),
    {
        self.iteration = iteration;
        self.converged = false;
        self.stalled = true;
    }

    pub fn set_constraint_blocked(&mut self, blocked: bool)
        ensures
            *final(self) == (SolverStatus { constraint_blocked: blocked, ..*old(self) }),
    {
        self.constraint_blocked = blocked;
    }

    pub fn is_terminal(&self) -> (done: bool)
        ensures
            done == self.terminal(),
    {
        self.converged || self.unreachable || self.stalled
    }

    pub fn label(&self) -> (label: StatusLabel)
        ensures
            label == self.label_of(),
    {
        if self.singular {
            StatusLabel::Singular
        } else if self.constraint_blocked {
            StatusLabel::StalledLimit
        } else if self.stalled {
            StatusLabel::Stalled
        } else if self.unreachable {
            StatusLabel::Unreachable
        } else if self.converged {
            StatusLabel::Converged
        } else {
            StatusLabel::Solving
        }
    }
}

/// Clearing the status restarts the solver: it is no longer stopped, shows
/// as solving and counts from zero.
pub proof fn lemma_cleared_status_solves_again()
    ensures
        !cleared_status().terminal(),
        cleared_status().label_of() == StatusLabel::Solving,
        cleared_status().iteration == 0,
{
}

/// Marking convergence stops the solver and shows it as converged, whatever
/// was reported before.
pub proof fn lemma_converged_is_shown(status: SolverStatus, iteration: usize)
    ensures
        status.with_converged(iteration).terminal(),
        status.with_converged(iteration).label_of() == StatusLabel::Converged,
{
}

/// The solver counts as stopped exactly when it converged, found the target
/// unreachable or stalled; a singularity, a collision or a joint-limit block
/// alone does not stop it.
pub proof fn lemma_stopped_means_finished(status: SolverStatus)
    ensures
        status.terminal() == (status.converged || status.unreachable || status.stalled),
{
}

/// Each label is shown only for the situation it names: "converged" only for
/// a converged solver with no other report, "unreachable" only for an
/// unreachable target that is neither singular nor stalled, the two stall
/// labels only for a stall (or a joint-limit block) without a singularity,
/// and "solving" only when no report is raised.
pub proof fn lemma_label_names_its_situation(status: SolverStatus)
    ensures
        status.label_of() == StatusLabel::Singular <==> status.singular,
        status.label_of() == StatusLabel::StalledLimit <==> (!status.singular
            && status.constraint_blocked),
        status.label_of() == StatusLabel::Stalled <==> (!status.singular
            && !status.constraint_blocked && status.stalled),
        status.label_of() == StatusLabel::Unreachable <==> (!status.singular
            && !status.constraint_blocked && !status.stalled && status.unreachable),
        status.label_of() == StatusLabel::Converged <==> (!status.singular
            && !status.constraint_blocked && !status.stalled && !status.unreachable
            && status.converged),
        status.label_of() == StatusLabel::Solving <==> (!status.singular
            && !status.constraint_blocked && !status.stalled && !status.unreachable
            && !status.converged),
{
}

/// The damping follows the singularity analysis: full damping exactly at a
/// singular pose, half damping exactly near one that is not singular.
pub proof fn lemma_damping_follows_analysis(status: SolverStatus)
    ensures
        (status.damping_of() == PseudoInverseDamping::Full) == status.is_singular_now,
        (status.damping_of() == PseudoInverseDamping::Half) == (!status.is_singular_now
            && status.near_singular),
        (status.damping_of() == PseudoInverseDamping::Undamped) == (!status.is_singular_now
            && !status.near_singular),
{
}

} // verus!
