use joint_motors::control::{
    angular_motor_step, linear_motor_step, motor_control, LimitClamp, MotorControl, MotorStep,
};
use joint_motors::model::MotorModel;

#[test]
fn default_model_is_acceleration_based() {
    assert_eq!(MotorModel::default(), MotorModel::AccelerationBased);
}

#[test]
fn spring_parameters_take_precedence_over_model() {
    assert_eq!(
        motor_control(true, true, MotorModel::AccelerationBased),
        MotorControl::ImplicitSpringDamper
    );
    assert_eq!(
        motor_control(true, true, MotorModel::ForceBased),
        MotorControl::ImplicitSpringDamper
    );
}

#[test]
fn one_spring_parameter_leaves_the_model_law() {
    assert_eq!(
        motor_control(true, false, MotorModel::AccelerationBased),
        MotorControl::AccelerationBased
    );
    assert_eq!(motor_control(false, true, MotorModel::ForceBased), MotorControl::ForceBased);
    assert_eq!(
        motor_control(false, true, MotorModel::AccelerationBased),
        MotorControl::AccelerationBased
    );
    assert_eq!(motor_control(true, false, MotorModel::ForceBased), MotorControl::ForceBased);
}

#[test]
fn without_spring_parameters_the_model_decides() {
    assert_eq!(
        motor_control(false, false, MotorModel::AccelerationBased),
        MotorControl::AccelerationBased
    );
    assert_eq!(motor_control(false, false, MotorModel::ForceBased), MotorControl::ForceBased);
}

#[test]
fn default_motor_uses_acceleration_law() {
    // A motor built with `new` has no spring parameters and the default model.
    assert_eq!(
        motor_control(false, false, MotorModel::default()),
        MotorControl::AccelerationBased
    );
}

#[test]
fn negligible_inverse_mass_keeps_motor_idle() {
    for c in [false, true] {
        for b in [false, true] {
            for p in [false, true] {
                assert_eq!(angular_motor_step(true, c, b, p), MotorStep::Idle);
                for e in [false, true] {
                    assert_eq!(linear_motor_step(true, c, b, p, e), MotorStep::Idle);
                }
            }
        }
    }
}

#[test]
fn negligible_correction_keeps_motor_idle() {
    assert_eq!(angular_motor_step(false, true, true, true), MotorStep::Idle);
    assert_eq!(angular_motor_step(false, true, false, true), MotorStep::Idle);
    assert_eq!(linear_motor_step(false, true, true, true, true), MotorStep::Idle);
}

#[test]
fn finite_positive_torque_limit_clamps_each_update() {
    // max_torque = 100.0: below the scalar maximum and positive.
    assert_eq!(
        angular_motor_step(false, false, true, true),
        MotorStep::Drive { clamp: LimitClamp::Update }
    );
}

#[test]
fn unset_limit_does_not_clamp() {
    // The default limit is the scalar maximum.
    assert_eq!(
        angular_motor_step(false, false, false, true),
        MotorStep::Drive { clamp: LimitClamp::Unclamped }
    );
    assert_eq!(
        linear_motor_step(false, false, false, true, true),
        MotorStep::Drive { clamp: LimitClamp::Unclamped }
    );
}

#[test]
fn non_positive_limit_applies_nothing() {
    // max_torque = 0.0 or negative: the motor can apply no torque.
    assert_eq!(angular_motor_step(false, false, true, false), MotorStep::Idle);
    for e in [false, true] {
        assert_eq!(linear_motor_step(false, false, true, false, e), MotorStep::Idle);
    }
}

#[test]
fn linear_limit_cuts_only_when_the_total_would_exceed_it() {
    assert_eq!(
        linear_motor_step(false, false, true, true, true),
        MotorStep::Drive { clamp: LimitClamp::Accumulated }
    );
    assert_eq!(
        linear_motor_step(false, false, true, true, false),
        MotorStep::Drive { clamp: LimitClamp::Unclamped }
    );
}

#[test]
fn limit_decision_from_scalar_comparisons() {
    let cases: [(f32, MotorStep); 5] = [
        (100.0, MotorStep::Drive { clamp: LimitClamp::Update }),
        (0.1, MotorStep::Drive { clamp: LimitClamp::Update }),
        (f32::MAX, MotorStep::Drive { clamp: LimitClamp::Unclamped }),
        (0.0, MotorStep::Idle),
        (-1.0, MotorStep::Idle),
    ];
    for (max_torque, expected) in cases {
        let step = angular_motor_step(false, false, max_torque < f32::MAX, max_torque > 0.0);
        assert_eq!(step, expected);
    }
}

#[test]
fn accumulated_limit_from_scalar_comparisons() {
    // max_force = 100.0 and dt = 0.01: the bound on the accumulated multiplier is 0.01.
    let max_force: f32 = 100.0;
    let dt: f32 = 0.01;
    let max_delta = max_force * dt * dt;
    let total: f32 = 0.008;
    for (delta, expected) in [
        (0.001f32, LimitClamp::Unclamped),
        (0.005f32, LimitClamp::Accumulated),
        (-0.02f32, LimitClamp::Accumulated),
    ] {
        let step = linear_motor_step(
            false,
            false,
            max_force < f32::MAX,
            max_force > 0.0,
            (total + delta).abs() > max_delta,
        );
        assert_eq!(step, MotorStep::Drive { clamp: expected });
    }
}
