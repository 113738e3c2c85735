# joint_motors

Joint motors for a position-based (XPBD) rigid body solver.

- `src/` is the verified library:
  - `model`: the motor model (acceleration-based or force-based) and its default.
  - `control`: which control law a motor uses (implicit spring-damper when both spring
    parameters are set, else acceleration-based or force-based by the motor model), and
    whether a motor solve drives the joint and how its limit bounds it: a limit of zero or
    below applies nothing, the angular motor clamps each update, the linear motor bounds
    the multiplier accumulated over the frame.
  - `warm_start`: the bookkeeping of the motor's Lagrange multipliers across frames
    (saving a frame's total for warm starting, consuming it once).
- `app/` holds what works on floating-point values: the `AngularJointMotor` and
  `LinearJointMotor` components with their builders, and the scalar arithmetic of a motor
  solve, which asks the library for its decisions.
- `tests/` exercises the library.
