use vstd::prelude::*;

verus! {

/// The motor Lagrange multipliers of a joint's solver data: the one accumulated over the
/// substeps of this frame, and the one kept from the previous frame for warm starting.
///
/// The scalar type `S` is the solver's (a float, or a vector of floats for a 3D hinge);
/// arithmetic on it happens outside, so the bookkeeping here only moves values.
#[derive(Clone, Copy, Debug)]
pub struct MotorLagrange<S> {
    /// Accumulated motor Lagrange multiplier for this frame.
    pub total_motor_lagrange: S,
    /// Motor Lagrange multiplier from the previous frame, used for warm starting.
    /// This is zeroed after being applied in the first substep.
    pub warm_start_motor_lagrange: S,
}

/// The multipliers after the clearing at the start of a frame: the total is saved for
/// warm starting and reset to `zero`.
pub open spec fn spec_cleared<S>(lagrange: MotorLagrange<S>, zero: S) -> MotorLagrange<S> {
    MotorLagrange { total_motor_lagrange: zero, warm_start_motor_lagrange: lagrange.total_motor_lagrange }
}

/// The multipliers after the warm start has been taken: the saved multiplier is reset to
/// `zero`, the total is untouched.
pub open spec fn spec_warm_start_taken<S>(lagrange: MotorLagrange<S>, zero: S) -> MotorLagrange<S> {
    MotorLagrange { total_motor_lagrange: lagrange.total_motor_lagrange, warm_start_motor_lagrange: zero }
}

impl<S: Copy> MotorLagrange<S> {
    /// Both multipliers at `zero`, as in freshly created solver data.
    pub fn new(zero: S) -> (lagrange: Self)
        ensures
            lagrange.total_motor_lagrange == zero,
            lagrange.warm_start_motor_lagrange == zero,
    {
        MotorLagrange { total_motor_lagrange: zero, warm_start_motor_lagrange: zero }
    }

    /// Saves this frame's motor multiplier for warm starting before clearing it to `zero`.
    pub fn clear_lagrange_multipliers(&mut self, zero: S)
        ensures
            *final(self) == spec_cleared(*old(self), zero),
            final(self).warm_start_motor_lagrange == old(self).total_motor_lagrange,
            final(self).total_motor_lagrange == zero,
    {
        self.warm_start_motor_lagrange = self.total_motor_lagrange;
        self.total_motor_lagrange = zero;
    }

    /// Hands out the multiplier saved for warm starting and resets it to `zero`, so that it is
    /// applied once, in the first substep.
    pub fn take_warm_start_lagrange(&mut self, zero: S) -> (warm_start: S)
        ensures
            warm_start == old(self).warm_start_motor_lagrange,
            *final(self) == spec_warm_start_taken(*old(self), zero),
            final(self).warm_start_motor_lagrange == zero,
            final(self).total_motor_lagrange == old(self).total_motor_lagrange,
    {
        let warm_start = self.warm_start_motor_lagrange;
        self.warm_start_motor_lagrange = zero;
        warm_start
    }

    /// The motor multiplier accumulated over this frame, as stored. For a 3D hinge, whose
    /// multiplier is a vector along the axis, the solver reports its length; that length is
    /// float arithmetic taken outside this library from the vector returned here.
    pub fn total_motor_lagrange(&self) -> (total: S)
        ensures
            total == self.total_motor_lagrange,
    {
        self.total_motor_lagrange
    }
}

/// What a frame's motor accumulated is what the next frame's warm start applies: clearing
/// and then taking the warm start hands out the old total, and leaves both multipliers at
/// `zero`.
pub proof fn lemma_warm_start_replays_previous_frame<S>(lagrange: MotorLagrange<S>, zero: S)
    ensures
        spec_cleared(lagrange, zero).warm_start_motor_lagrange == lagrange.total_motor_lagrange,
        spec_warm_start_taken(spec_cleared(lagrange, zero), zero) == (MotorLagrange {
            total_motor_lagrange: zero,
            warm_start_motor_lagrange: zero,
        }),
{
}

/// The warm start is applied at most once per frame: taking it again yields `zero`.
pub proof fn lemma_warm_start_taken_once<S>(lagrange: MotorLagrange<S>, zero: S)
    ensures
        spec_warm_start_taken(lagrange, zero).warm_start_motor_lagrange == zero,
        (spec_warm_start_taken(spec_warm_start_taken(lagrange, zero), zero) == spec_warm_start_taken(lagrange, zero)),
{
}

} // verus!
