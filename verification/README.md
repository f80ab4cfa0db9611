# reach_me_if_you_can

An interactive simulator of a planar robot arm with 2 to 5 joints that
follows a target point by inverse kinematics (Jacobian transpose,
pseudo-inverse with and without damping, damped least squares), with joint
limits and obstacle avoidance.

- `src/` is the verified library: the arm's joint layout, the pose container
  and its end-effector invariant, the solver's status flags and the rules
  that move them from one solver step to the next, the simulation's run
  control, the solver choice, and the state changes of the control panel's
  widgets.
- `app/` is the macroquad program around it: the floating-point geometry
  (forward kinematics, Jacobian, Gaussian elimination, pseudo-inverses,
  obstacle distances and potential field), drawing and input.
- `tests/` exercises the library on concrete values.
