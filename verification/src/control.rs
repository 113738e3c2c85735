use vstd::prelude::*;

use crate::model::MotorModel;

verus! {

/// The control law by which a joint motor turns its position and velocity errors
/// into the velocity change that it asks of the joint in one substep.
#[derive(Clone, Copy, Debug, PartialEq, Eq, Hash, Structural)]
pub enum MotorControl {
    /// Implicit Euler spring-damper, driven by the frequency and the damping ratio:
    /// timestep-independent behavior. The raw stiffness and damping are not read.
    ImplicitSpringDamper,
    /// Damping times the velocity error plus stiffness times the position error times the
    /// substep: the bodies' masses are ignored.
    AccelerationBased,
    /// Stiffness times the position error plus damping times the velocity error, scaled by
    /// the summed generalized inverse mass of the two bodies.
    ForceBased,
}

/// Whether a control law reads the raw stiffness and damping coefficients.
pub open spec fn reads_raw_gains(control: MotorControl) -> bool {
    !(control is ImplicitSpringDamper)
}

/// The law of a motor model, used unless both spring parameters are set.
pub open spec fn model_control(model: MotorModel) -> MotorControl {
    match model {
        MotorModel::AccelerationBased => MotorControl::AccelerationBased,
        MotorModel::ForceBased => MotorControl::ForceBased,
    }
}

/// Chooses the control law of a motor from which of its spring parameters are set
/// (`has_frequency`, `has_damping_ratio`) and from its motor model.
///
/// The spring parameters, set together by `with_spring_parameters`, take precedence over the
/// raw stiffness and damping: once both are set, the motor follows the spring-damper law,
/// which reads neither raw coefficient and ignores the motor model. Otherwise (neither set,
/// or only one of them) the motor model decides, with the raw stiffness and damping.
pub fn motor_control(has_frequency: bool, has_damping_ratio: bool, model: MotorModel) -> (control:
    MotorControl)
    ensures
        control is ImplicitSpringDamper <==> (has_frequency && has_damping_ratio),
        has_frequency && has_damping_ratio ==> !reads_raw_gains(control),
        !(has_frequency && has_damping_ratio) ==> control == model_control(model),
{
    if has_frequency && has_damping_ratio {
        MotorControl::ImplicitSpringDamper
    } else {
        match model {
            MotorModel::AccelerationBased => MotorControl::AccelerationBased,
            MotorModel::ForceBased => MotorControl::ForceBased,
        }
    }
}

/// How the maximum torque or force bounds the multiplier update of a driving motor.
#[derive(Clone, Copy, Debug, PartialEq, Eq, Hash, Structural)]
pub enum LimitClamp {
    /// The update is applied as computed.
    Unclamped,
    /// The update of this substep is clamped to `[-max * dt², max * dt²]` (angular motor).
    Update,
    /// The update is cut so that the multiplier accumulated over the frame lands on the
    /// nearer end of `[-max * dt², max * dt²]` (linear motor).
    Accumulated,
}

/// What one motor solve does to the two bodies of its joint.
#[derive(Clone, Copy, Debug, PartialEq, Eq, Hash, Structural)]
pub enum MotorStep {
    /// The motor leaves the bodies and its accumulated multiplier unchanged.
    Idle,
    /// The motor applies its correction, bounded as `clamp` says.
    Drive { clamp: LimitClamp },
}

/// Whether a motor solve stays idle: the summed generalized inverse mass along the motor's
/// axis is negligible (at most machine epsilon), the position correction asked for is
/// negligible, or the maximum torque or force is not positive. The limit is the most that the
/// motor can apply, so a motor whose limit is zero or below applies nothing.
pub open spec fn stays_idle(
    inverse_mass_negligible: bool,
    correction_negligible: bool,
    limit_positive: bool,
) -> bool {
    inverse_mass_negligible || correction_negligible || !limit_positive
}

/// Decides the step of one solve of an angular (revolute) motor from the comparisons that
/// the solver makes: whether the summed generalized inverse mass is negligible, whether the
/// position correction is negligible, whether the maximum torque is below the scalar maximum
/// (the scalar maximum means "no limit"), and whether it is positive.
///
/// A driving angular motor clamps the update of each substep when its torque is limited.
pub fn angular_motor_step(
    inverse_mass_negligible: bool,
    correction_negligible: bool,
    limit_below_max: bool,
    limit_positive: bool,
) -> (step: MotorStep)
    ensures
        step is Idle <==> stays_idle(inverse_mass_negligible, correction_negligible, limit_positive),
        !limit_positive ==> step is Idle,
        step is Drive ==> step->clamp == (if limit_below_max {
            LimitClamp::Update
        } else {
            LimitClamp::Unclamped
        }),
{
    if inverse_mass_negligible || correction_negligible || !limit_positive {
        MotorStep::Idle
    } else if limit_below_max {
        MotorStep::Drive { clamp: LimitClamp::Update }
    } else {
        MotorStep::Drive { clamp: LimitClamp::Unclamped }
    }
}

/// Decides the step of one solve of a linear (prismatic) motor, from the same comparisons as
/// [`angular_motor_step`] and from whether the accumulated multiplier plus this substep's
/// update would exceed the maximum force times the substep squared in magnitude.
///
/// A driving linear motor bounds the multiplier accumulated over the frame: it cuts the
/// update only when the accumulated multiplier would leave the bound.
pub fn linear_motor_step(
    inverse_mass_negligible: bool,
    correction_negligible: bool,
    limit_below_max: bool,
    limit_positive: bool,
    accumulated_exceeds_limit: bool,
) -> (step: MotorStep)
    ensures
        step is Idle <==> stays_idle(inverse_mass_negligible, correction_negligible, limit_positive),
        !limit_positive ==> step is Idle,
        step is Drive ==> step->clamp == (if limit_below_max && accumulated_exceeds_limit {
            LimitClamp::Accumulated
        } else {
            LimitClamp::Unclamped
        }),
{
    if inverse_mass_negligible || correction_negligible || !limit_positive {
        MotorStep::Idle
    } else if limit_below_max && accumulated_exceeds_limit {
        MotorStep::Drive { clamp: LimitClamp::Accumulated }
    } else {
        MotorStep::Drive { clamp: LimitClamp::Unclamped }
    }
}

} // verus!
