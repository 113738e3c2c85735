use vstd::prelude::*;

verus! {

/// The motor model determines how the motor force/torque is computed.
#[derive(Clone, Copy, Debug, PartialEq, Eq, Hash, Structural)]
pub enum MotorModel {
    /// The motor force/torque is computed based on the acceleration required to reach the target.
    ///
    /// This model is more stable and easier to tune, but it ignores the mass of the bodies.
    AccelerationBased,
    /// The motor force/torque is computed directly from the stiffness and damping parameters.
    ///
    /// This model takes the mass of the bodies into account, resulting in more physically
    /// accurate behavior, but it may be harder to tune.
    ForceBased,
}

impl Default for MotorModel {
    /// The acceleration-based model, the easier one to tune.
    fn default() -> (model: Self)
        ensures
            model == MotorModel::AccelerationBased,
    {
        MotorModel::AccelerationBased
    }
}

} // verus!
