use reach_me_if_you_can::kinematics::solver::{
    begin_step, finish_step, record_singularity, StepDecision, StepObservation, UpdateOutcome,
};
use reach_me_if_you_can::robot::state::{PseudoInverseDamping, SolverStatus, StatusLabel};

fn observation(
    within_reach: bool,
    within_tolerance: bool,
    colliding: bool,
    blocked_by_limits: bool,
) -> StepObservation {
    StepObservation { within_reach, within_tolerance, colliding, blocked_by_limits }
}

#[test]
fn new_status_is_solving_at_iteration_zero() {
    let status = SolverStatus::new();
    assert_eq!(status.iteration, 0);
    assert!(!status.is_terminal());
    assert_eq!(status.label(), StatusLabel::Solving);
}

#[test]
fn unreachable_target_stops_without_iterating() {
    let mut status = SolverStatus::new();
    status.iteration = 7;
    status.constraint_blocked = true;
    let decision = begin_step(&mut status, 500, observation(false, false, true, false));
    assert_eq!(decision, StepDecision::Unreachable);
    assert_eq!(status.iteration, 7);
    assert!(status.unreachable);
    assert!(!status.constraint_blocked);
    assert!(!status.colliding);
    assert!(status.is_terminal());
    assert_eq!(status.label(), StatusLabel::Unreachable);
}

#[test]
fn target_within_tolerance_converges() {
    let mut status = SolverStatus::new();
    status.iteration = 12;
    status.singular = true;
    let decision = begin_step(&mut status, 500, observation(true, true, true, false));
    assert_eq!(decision, StepDecision::Converged);
    assert!(status.converged);
    assert!(!status.singular);
    assert!(status.colliding);
    assert_eq!(status.iteration, 12);
    assert_eq!(status.label(), StatusLabel::Converged);
}

#[test]
fn spent_budget_stalls_and_reports_limit_block() {
    let mut status = SolverStatus::new();
    status.iteration = 500;
    let decision = begin_step(&mut status, 500, observation(true, false, false, true));
    assert_eq!(decision, StepDecision::Stalled);
    assert!(status.stalled);
    assert!(status.constraint_blocked);
    assert_eq!(status.label(), StatusLabel::StalledLimit);

    let mut plain = SolverStatus::new();
    plain.iteration = 500;
    let decision = begin_step(&mut plain, 500, observation(true, false, false, false));
    assert_eq!(decision, StepDecision::Stalled);
    assert!(!plain.constraint_blocked);
    assert_eq!(plain.label(), StatusLabel::Stalled);
}

#[test]
fn stopped_solver_skips_the_step() {
    let mut status = SolverStatus::new();
    status.mark_converged(3);
    let before = status;
    let decision = begin_step(&mut status, 500, observation(false, false, true, true));
    assert_eq!(decision, StepDecision::Skip);
    assert_eq!(status, before);
}

#[test]
fn applied_update_counts_one_iteration() {
    let mut status = SolverStatus::new();
    let decision = begin_step(&mut status, 500, observation(true, false, false, false));
    assert_eq!(decision, StepDecision::Update);
    record_singularity(&mut status, true, false);
    assert!(status.near_singular);
    assert!(!status.is_singular_now);
    let outcome = finish_step(&mut status, true, true);
    assert_eq!(outcome, UpdateOutcome::Advanced);
    assert_eq!(status.iteration, 1);
    assert_eq!(status.label(), StatusLabel::Solving);
}

#[test]
fn non_finite_update_marks_singular() {
    let mut status = SolverStatus::new();
    status.iteration = 4;
    let outcome = finish_step(&mut status, false, true);
    assert_eq!(outcome, UpdateOutcome::NonFinite);
    assert!(status.singular);
    assert_eq!(status.iteration, 4);
    assert_eq!(status.label(), StatusLabel::Singular);
    assert!(!status.is_terminal());
}

#[test]
fn refused_angles_mark_singular() {
    let mut status = SolverStatus::new();
    status.iteration = 9;
    let outcome = finish_step(&mut status, true, false);
    assert_eq!(outcome, UpdateOutcome::Rejected);
    assert!(status.singular);
    assert_eq!(status.iteration, 9);
}

#[test]
fn iteration_stays_within_budget_over_many_steps() {
    let mut status = SolverStatus::new();
    let max_iterations = 25;
    let mut steps = 0;
    while steps < 100 {
        let decision = begin_step(&mut status, max_iterations, observation(true, false, false, false));
        if decision == StepDecision::Update {
            record_singularity(&mut status, false, false);
            finish_step(&mut status, true, true);
        }
        assert!(status.iteration <= max_iterations);
        steps += 1;
    }
    assert!(status.stalled);
    assert_eq!(status.iteration, max_iterations);
}

#[test]
fn clearing_restarts_the_solver() {
    let mut status = SolverStatus::new();
    status.mark_stalled(40);
    status.set_constraint_blocked(true);
    status.colliding = true;
    status.clear_solver_status();
    assert_eq!(status, SolverStatus::new());
}

#[test]
fn status_label_priority_follows_the_overlay() {
    let mut status = SolverStatus::new();
    status.converged = true;
    status.unreachable = true;
    assert_eq!(status.label(), StatusLabel::Unreachable);
    status.stalled = true;
    assert_eq!(status.label(), StatusLabel::Stalled);
    status.constraint_blocked = true;
    assert_eq!(status.label(), StatusLabel::StalledLimit);
    status.singular = true;
    assert_eq!(status.label(), StatusLabel::Singular);
}

#[test]
fn mark_unreachable_keeps_singular_flag() {
    let mut status = SolverStatus::new();
    status.mark_singular(2);
    status.mark_unreachable(2);
    assert!(status.singular);
    assert!(status.unreachable);
    assert!(!status.converged);
}

#[test]
fn pseudo_inverse_damping_follows_singularity_analysis() {
    let mut status = SolverStatus::new();
    assert_eq!(status.pseudo_inverse_damping(), PseudoInverseDamping::Undamped);
    record_singularity(&mut status, true, false);
    assert_eq!(status.pseudo_inverse_damping(), PseudoInverseDamping::Half);
    record_singularity(&mut status, false, true);
    assert_eq!(status.pseudo_inverse_damping(), PseudoInverseDamping::Full);
    status.near_singular = true;
    assert_eq!(status.pseudo_inverse_damping(), PseudoInverseDamping::Full);
}
