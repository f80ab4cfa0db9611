//! Verified decision logic of a planar robot-arm inverse-kinematics simulator.
//!
//! The library holds the parts of the simulator that work on plain values:
//! the joint layout of an arm, the solver's status flags and the rules that
//! move them from one solver step to the next, the run control of the
//! simulation, the choice of solver, and the state changes of the control
//! panel's widgets. The floating-point geometry (forward kinematics, the
//! Jacobian, the linear solvers, obstacle distances) lives beside it in the
//! application.

pub mod robot;
pub mod kinematics;
pub mod simulation;
pub mod gui;
