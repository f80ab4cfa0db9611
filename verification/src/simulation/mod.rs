use vstd::prelude::*;

use crate::robot::state::SolverStatus;

verus! {

/// Whether the simulation runs: it can be switched off altogether, or paused
/// and resumed by the user.
#[derive(Debug, Clone, Copy, PartialEq, Eq)]
pub struct RunControl {
    pub enabled: bool,
    pub paused: bool,
}

impl RunControl {
    /// The number of solver steps a frame may take: none while the
    /// simulation is off or paused, otherwise the requested number but at
    /// least one.
    pub open spec fn budget(self, steps_per_frame: usize) -> usize {
        if !self.enabled || self.paused {
            0
        } else if steps_per_frame == 0 {
            1
        } else {
            steps_per_frame
        }
    }

    /// The same control with its pause switched.
    pub open spec fn toggled(self) -> RunControl {
        RunControl { paused: !self.paused, ..self }
    }

    /// A running, unpaused simulation.
    pub fn new() -> (control: Self)
        ensures
            control.enabled,
            !control.paused,
    {
        RunControl { enabled: true, paused: false }
    }

    pub fn toggle_pause(&mut self)
        ensures
            *final(self) == old(self).toggled(),
    {
        self.paused = !self.paused;
    }

    pub fn set_paused(&mut self, paused: bool)
        ensures
            *final(self) == (RunControl { paused, ..*old(self) }),
    {
        self.paused = paused;
    }

    /// Resetting the simulation resumes it.
    pub fn reset(&mut self)
        ensures
            *final(self) == (RunControl { paused: false, ..*old(self) }),
    {
        self.paused = false;
    }

    pub fn steps_this_frame(&self, steps_per_frame: usize) -> (steps: usize)
        ensures
            steps == self.budget(steps_per_frame),
    {
        if !self.enabled || self.paused {
            0
        } else if steps_per_frame == 0 {
            1
        } else {
            steps_per_frame
        }
    }

    /// Whether a frame that has already taken `steps_done` solver steps takes
    /// another: only while the frame's budget lasts and the solver has not
    /// stopped.
    pub fn frame_should_step(
        &self,
        status: &SolverStatus,
        steps_done: usize,
        steps_per_frame: usize,
    ) -> (step: bool)
        ensures
            step == (steps_done < self.budget(steps_per_frame) && !status.terminal()),
    {
        let budget: usize = self.steps_this_frame(steps_per_frame);
        steps_done < budget && !status.is_terminal()
    }
}

/// Pausing and resuming returns to the first state, and a toggle only ever
/// changes the pause.
pub proof fn lemma_toggle_twice_restores(control: RunControl)
    ensures
        control.toggled().toggled() == control,
        control.toggled().enabled == control.enabled,
        control.toggled().paused != control.paused,
{
}

/// A paused or disabled simulation takes no solver step; a running one takes
/// at least one per frame and never more than requested (beyond the first).
pub proof fn lemma_frame_budget(control: RunControl, steps_per_frame: usize)
    ensures
        (control.paused || !control.enabled) ==> control.budget(steps_per_frame) == 0,
        (!control.paused && control.enabled) ==> {
            &&& control.budget(steps_per_frame) >= 1
            &&& (steps_per_frame >= 1 ==> control.budget(steps_per_frame) == steps_per_frame)
        },
{
}

/// Once the solver has stopped, a frame takes no further step.
pub proof fn lemma_stopped_solver_takes_no_step(
    control: RunControl,
    status: SolverStatus,
    steps_done: usize,
    steps_per_frame: usize,
)
    requires
        status.terminal(),
    ensures
        !(steps_done < control.budget(steps_per_frame) && !status.terminal()),
{
}

/// A frame takes another step exactly when the simulation is on and not
/// paused, fewer steps than requested (at least one) have been taken, and
/// the solver has neither converged, nor found the target unreachable, nor
/// stalled; a collision or a singularity does not end the frame.
pub proof fn lemma_frame_steps_while_solving(
    control: RunControl,
    status: SolverStatus,
    steps_done: usize,
    steps_per_frame: usize,
)
    ensures
        (steps_done < control.budget(steps_per_frame) && !status.terminal()) == (control.enabled
            && !control.paused && steps_done < (if steps_per_frame == 0 {
            1
        } else {
            steps_per_frame
        }) && !status.converged && !status.unreachable && !status.stalled),
{
}

} // verus!
