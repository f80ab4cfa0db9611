use reach_me_if_you_can::robot::state::SolverStatus;
use reach_me_if_you_can::simulation::RunControl;

#[test]
fn new_control_runs() {
    let control = RunControl::new();
    assert!(control.enabled);
    assert!(!control.paused);
    assert_eq!(control.steps_this_frame(3), 3);
    assert_eq!(control.steps_this_frame(0), 1);
}

#[test]
fn paused_or_disabled_control_takes_no_step() {
    let mut control = RunControl::new();
    control.toggle_pause();
    assert!(control.paused);
    assert_eq!(control.steps_this_frame(5), 0);
    control.toggle_pause();
    assert_eq!(control, RunControl::new());

    let disabled = RunControl { enabled: false, paused: false };
    assert_eq!(disabled.steps_this_frame(5), 0);
}

#[test]
fn reset_resumes_the_simulation() {
    let mut control = RunControl::new();
    control.set_paused(true);
    control.reset();
    assert!(!control.paused);
    assert!(control.enabled);
}

#[test]
fn frame_stops_at_budget_or_when_solver_stops() {
    let control = RunControl::new();
    let mut status = SolverStatus::new();
    assert!(control.frame_should_step(&status, 0, 2));
    assert!(control.frame_should_step(&status, 1, 2));
    assert!(!control.frame_should_step(&status, 2, 2));
    status.mark_converged(1);
    assert!(!control.frame_should_step(&status, 0, 2));
}
