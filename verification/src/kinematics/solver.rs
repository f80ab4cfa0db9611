use vstd::prelude::*;

use crate::robot::state::{SolverStatus, StatusLabel};

verus! {

/// What the application measured on the arm before a solver step: whether the
/// target lies within the arm's reach, whether the end effector is already
/// within the position tolerance of the target, whether the arm touches an
/// obstacle, and whether a limited joint sits at one of its bounds.
#[derive(Debug, Clone, Copy, PartialEq, Eq)]
pub struct StepObservation {
    pub within_reach: bool,
    pub within_tolerance: bool,
    pub colliding: bool,
    pub blocked_by_limits: bool,
}

/// What a solver step does after its first checks.
#[derive(Debug, Clone, Copy, PartialEq, Eq)]
pub enum StepDecision {
    /// The solver had already stopped; nothing changes.
    Skip,
    /// The target is out of reach; the solver stops without iterating.
    Unreachable,
    /// The end effector is within tolerance; the solver stops.
    Converged,
    /// The iteration budget is spent; the solver stops.
    Stalled,
    /// The solver computes a joint update.
    Update,
}

/// How a joint update ended.
#[derive(Debug, Clone, Copy, PartialEq, Eq)]
pub enum UpdateOutcome {
    /// The update was applied and counted as one iteration.
    Advanced,
    /// The solver produced a non-finite update; the arm is left unchanged.
    NonFinite,
    /// The arm refused the new joint angles.
    Rejected,
}

/// The status and decision that the first checks of a step produce.
pub open spec fn begin_step_result(
    status: SolverStatus,
    max_iterations: usize,
    observation: StepObservation,
) -> (SolverStatus, StepDecision) {
    if status.terminal() {
        (status, StepDecision::Skip)
    } else if !observation.within_reach {
        (status.with_unreachable(status.iteration), StepDecision::Unreachable)
    } else {
        let touched = SolverStatus { colliding: observation.colliding, ..status };
        if observation.within_tolerance {
            (touched.with_converged(status.iteration), StepDecision::Converged)
        } else if status.iteration >= max_iterations {
            (
                SolverStatus {
                    constraint_blocked: observation.blocked_by_limits,
                    ..touched.with_stalled(status.iteration)
                },
                StepDecision::Stalled,
            )
        } else {
            (touched, StepDecision::Update)
        }
    }
}

/// The status after the singularity analysis of the current pose.
pub open spec fn with_singularity(
    status: SolverStatus,
    near_singular: bool,
    singular_now: bool,
) -> SolverStatus {
    SolverStatus { near_singular, is_singular_now: singular_now, ..status }
}

/// The status and outcome at the end of a joint update.
pub open spec fn finish_step_result(
    status: SolverStatus,
    update_finite: bool,
    accepted: bool,
) -> (SolverStatus, UpdateOutcome) {
    if !update_finite {
        (status.with_singular(status.iteration), UpdateOutcome::NonFinite)
    } else if !accepted {
        (status.with_singular(status.iteration), UpdateOutcome::Rejected)
    } else {
        (
            SolverStatus { iteration: (status.iteration + 1) as usize, ..status },
            UpdateOutcome::Advanced,
        )
    }
}

/// The status after one whole step that went through a joint update.
pub open spec fn updated_status(
    status: SolverStatus,
    near_singular: bool,
    singular_now: bool,
    update_finite: bool,
    accepted: bool,
) -> SolverStatus {
    finish_step_result(
        with_singularity(status, near_singular, singular_now),
        update_finite,
        accepted,
    ).0
}

/// The first checks of a solver step, in the order the solver makes them:
/// a stopped solver does nothing; an unreachable target stops it before any
/// iteration; otherwise the collision flag is refreshed, and the solver stops
/// when the end effector is within tolerance or the iteration budget is spent,
/// recording in the latter case whether a joint limit blocked it.
pub fn begin_step(
    status: &mut SolverStatus,
    max_iterations: usize,
    observation: StepObservation,
) -> (decision: StepDecision)
    ensures
        (*final(status), decision) == begin_step_result(*old(status), max_iterations, observation),
{
    if status.is_terminal() {
        return StepDecision::Skip;
    }
    if !observation.within_reach {
        let iteration: usize = status.iteration;
        status.mark_unreachable(iteration);
        return StepDecision::Unreachable;
    }
    status.colliding = observation.colliding;
    if observation.within_tolerance {
        let iteration: usize = status.iteration;
        status.mark_converged(iteration);
        return StepDecision::Converged;
    }
    if status.iteration >= max_iterations {
        let iteration: usize = status.iteration;
        status.mark_stalled(iteration);
        status.set_constraint_blocked(observation.blocked_by_limits);
        return StepDecision::Stalled;
    }
    StepDecision::Update
}

/// Records the singularity analysis of the current pose, which the solvers
/// read when they choose their damping.
pub fn record_singularity(status: &mut SolverStatus, near_singular: bool, singular_now: bool)
    ensures
        *final(status) == with_singularity(*old(status), near_singular, singular_now),
{
    status.near_singular = near_singular;
    status.is_singular_now = singular_now;
}

/// Ends a joint update: a non-finite update or a refused set of angles marks
/// the arm singular at the current iteration; an applied update counts one
/// more iteration.
pub fn finish_step(status: &mut SolverStatus, update_finite: bool, accepted: bool) -> (outcome:
    UpdateOutcome)
    requires
        old(status).iteration < usize::MAX,
    ensures
        (*final(status), outcome) == finish_step_result(*old(status), update_finite, accepted),
{
    if !update_finite {
        let iteration: usize = status.iteration;
        status.mark_singular(iteration);
        return UpdateOutcome::NonFinite;
    }
    if !accepted {
        let iteration: usize = status.iteration;
        status.mark_singular(iteration);
        return UpdateOutcome::Rejected;
    }
    status.iteration = status.iteration + 1;
    UpdateOutcome::Advanced
}

/// A solver that has stopped (converged, unreachable target or stalled)
/// stays as it is: a further step changes nothing.
pub proof fn lemma_stopped_solver_stays_put(
    status: SolverStatus,
    max_iterations: usize,
    observation: StepObservation,
)
    requires
        status.terminal(),
    ensures
        begin_step_result(status, max_iterations, observation) == (status, StepDecision::Skip),
{
}

/// The iteration count never passes the iteration budget: a step that starts
/// within the budget ends within it, and an update is only attempted while
/// the budget is not spent.
pub proof fn lemma_iteration_within_budget(
    status: SolverStatus,
    max_iterations: usize,
    observation: StepObservation,
    near_singular: bool,
    singular_now: bool,
    update_finite: bool,
    accepted: bool,
)
    requires
        status.iteration <= max_iterations,
    ensures
        begin_step_result(status, max_iterations, observation).0.iteration <= max_iterations,
        begin_step_result(status, max_iterations, observation).1 == StepDecision::Update ==> {
            &&& status.iteration < max_iterations
            &&& updated_status(
                begin_step_result(status, max_iterations, observation).0,
                near_singular,
                singular_now,
                update_finite,
                accepted,
            ).iteration <= max_iterations
        },
{
}

/// A step never lowers the iteration count, and raises it by exactly one
/// when an update is applied.
pub proof fn lemma_iteration_is_monotone(
    status: SolverStatus,
    max_iterations: usize,
    observation: StepObservation,
    near_singular: bool,
    singular_now: bool,
    update_finite: bool,
    accepted: bool,
)
    requires
        status.iteration < usize::MAX,
    ensures
        begin_step_result(status, max_iterations, observation).0.iteration == status.iteration,
        updated_status(status, near_singular, singular_now, update_finite, accepted).iteration
            >= status.iteration,
        finish_step_result(
            with_singularity(status, near_singular, singular_now),
            update_finite,
            accepted,
        ).1 == UpdateOutcome::Advanced ==> updated_status(
            status,
            near_singular,
            singular_now,
            update_finite,
            accepted,
        ).iteration == status.iteration + 1,
{
}

/// An unreachable target is detected before the solver iterates: the step
/// stops the solver, spends no iteration and reports no joint-limit block.
pub proof fn lemma_unreachable_target_costs_no_iteration(
    status: SolverStatus,
    max_iterations: usize,
    observation: StepObservation,
)
    requires
        !status.terminal(),
        !observation.within_reach,
    ensures
        begin_step_result(status, max_iterations, observation).1 == StepDecision::Unreachable,
        begin_step_result(status, max_iterations, observation).0.iteration == status.iteration,
        begin_step_result(status, max_iterations, observation).0.unreachable,
        !begin_step_result(status, max_iterations, observation).0.constraint_blocked,
        begin_step_result(status, max_iterations, observation).0.terminal(),
{
}

/// A solver stalls only once the iteration budget is spent, and then shows
/// "stalled at a limit" exactly when a limited joint sits at its bound
/// (unless an earlier singularity is still being reported).
pub proof fn lemma_stall_reports_joint_limits(
    status: SolverStatus,
    max_iterations: usize,
    observation: StepObservation,
)
    requires
        begin_step_result(status, max_iterations, observation).1 == StepDecision::Stalled,
    ensures
        status.iteration >= max_iterations,
        !observation.within_tolerance,
        observation.within_reach,
        begin_step_result(status, max_iterations, observation).0.terminal(),
        !status.singular ==> begin_step_result(status, max_iterations, observation).0.label_of()
            == (if observation.blocked_by_limits {
            StatusLabel::StalledLimit
        } else {
            StatusLabel::Stalled
        }),
{
}

/// A step that finds the end effector within tolerance stops the solver and
/// shows it as converged, whatever was reported before.
pub proof fn lemma_convergence_is_reported(
    status: SolverStatus,
    max_iterations: usize,
    observation: StepObservation,
)
    requires
        !status.terminal(),
        observation.within_reach,
        observation.within_tolerance,
    ensures
        begin_step_result(status, max_iterations, observation).1 == StepDecision::Converged,
        begin_step_result(status, max_iterations, observation).0.terminal(),
        begin_step_result(status, max_iterations, observation).0.label_of()
            == StatusLabel::Converged,
{
}

/// A failed update (non-finite or refused) keeps the iteration count and
/// shows the arm as singular.
pub proof fn lemma_failed_update_reports_singularity(
    status: SolverStatus,
    near_singular: bool,
    singular_now: bool,
    update_finite: bool,
    accepted: bool,
)
    requires
        !(update_finite && accepted),
    ensures
        updated_status(status, near_singular, singular_now, update_finite, accepted).iteration
            == status.iteration,
        updated_status(status, near_singular, singular_now, update_finite, accepted).label_of()
            == StatusLabel::Singular,
{
}

/// Which way the first checks of a step go, stated on the inputs alone: a
/// step is skipped exactly when the solver converged, found the target
/// unreachable or stalled; otherwise an unreachable target stops it, a target
/// within tolerance makes it converge, a spent budget makes it stall, and in
/// every other case it goes on to a joint update. Only an out-of-reach target
/// raises the unreachable flag, the iteration count never moves, and a step
/// that goes on to an update changes nothing but the collision flag.
pub proof fn lemma_first_checks_decide(
    status: SolverStatus,
    max_iterations: usize,
    observation: StepObservation,
)
    ensures
        ({
            let after = begin_step_result(status, max_iterations, observation).0;
            let decision = begin_step_result(status, max_iterations, observation).1;
            let stopped = status.converged || status.unreachable || status.stalled;
            let goes_on = !stopped && observation.within_reach && !observation.within_tolerance;
            &&& (decision == StepDecision::Skip) == stopped
            &&& (decision == StepDecision::Unreachable) == (!stopped && !observation.within_reach)
            &&& (decision == StepDecision::Converged) == (!stopped && observation.within_reach
                && observation.within_tolerance)
            &&& (decision == StepDecision::Stalled) == (goes_on && status.iteration
                >= max_iterations)
            &&& (decision == StepDecision::Update) == (goes_on && status.iteration
                < max_iterations)
            &&& after.iteration == status.iteration
            &&& after.unreachable == (status.unreachable || (!stopped
                && !observation.within_reach))
            &&& decision == StepDecision::Skip ==> after == status
            &&& decision == StepDecision::Update ==> after == (SolverStatus {
                colliding: observation.colliding,
                ..status
            })
        }),
{
}

/// An update that is finite and accepted always advances: the iteration
/// count rises by exactly one and nothing else changes beyond the recorded
/// singularity analysis, whatever that analysis found; only a non-finite or
/// refused update marks the arm singular.
pub proof fn lemma_applied_update_advances(
    status: SolverStatus,
    near_singular: bool,
    singular_now: bool,
    update_finite: bool,
    accepted: bool,
)
    requires
        status.iteration < usize::MAX,
    ensures
        ({
            let analysed = with_singularity(status, near_singular, singular_now);
            let after = finish_step_result(analysed, update_finite, accepted).0;
            let outcome = finish_step_result(analysed, update_finite, accepted).1;
            &&& (outcome == UpdateOutcome::Advanced) == (update_finite && accepted)
            &&& (outcome == UpdateOutcome::NonFinite) == !update_finite
            &&& (outcome == UpdateOutcome::Rejected) == (update_finite && !accepted)
            &&& after.singular == (status.singular || !(update_finite && accepted))
            &&& (update_finite && accepted) ==> after == (SolverStatus {
                iteration: (status.iteration + 1) as usize,
                near_singular,
                is_singular_now: singular_now,
                ..status
            })
            &&& !(update_finite && accepted) ==> after.iteration == status.iteration
        }),
{
}

} // verus!
