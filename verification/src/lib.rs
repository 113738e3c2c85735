//! Joint motors for a position-based rigid body solver: the motor model, the choice of
//! control law by which a motor drives a revolute or prismatic joint, and the bookkeeping of
//! the motor's Lagrange multipliers for warm starting.

pub mod model;
pub mod control;
pub mod warm_start;
