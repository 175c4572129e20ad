use fcs::components::{
    AssistOutput, AxisContribution, ControlAxis, FlightControlSystem, GForceSafety, LinearAssist,
    MaxVelocity, OutputProportion, RotationalAssist, Toggle,
};
use fcs::dimension3::{ClampedDimension3, Dimension3, MaxDimension3, MinDimension3, Vector3};
use fcs::math::clamp;
use fcs::FcsError;

#[test]
fn control_axis_getters_and_mutation() {
    let mut axis = ControlAxis::new(1i64, 2i64);
    assert_eq!(*axis.linear(), 1);
    assert_eq!(*axis.rotational(), 2);
    *axis.linear_mut() = 10;
    *axis.rotational_mut() = 20;
    assert_eq!(*axis.linear(), 10);
    assert_eq!(*axis.rotational(), 20);
}

#[test]
fn dimension3_getters_and_mutation() {
    let mut d = Dimension3::new(1i64, 2i64, 3i64);
    assert_eq!(d.x(), 1);
    assert_eq!(d.y(), 2);
    assert_eq!(d.z(), 3);
    *d.x_mut() = 4;
    *d.y_mut() = 5;
    *d.z_mut() = 6;
    assert_eq!(d.x(), 4);
    assert_eq!(d.y(), 5);
    assert_eq!(d.z(), 6);
    let uniform = Dimension3::default(7i64);
    assert_eq!(uniform.x(), 7);
    assert_eq!(uniform.y(), 7);
    assert_eq!(uniform.z(), 7);
}

#[test]
fn vector3_components() {
    let v = Vector3::new(1, -2, 3, 1);
    assert_eq!(v.x(), 1);
    assert_eq!(v.y(), -2);
    assert_eq!(v.z(), 3);
    assert_eq!(v.magnitude(), 1);
}

#[test]
fn axis_contribution_holds_magnitudes() {
    let mut contribution = AxisContribution::new(5, 3);
    assert_eq!(contribution.positive(), 5);
    assert_eq!(contribution.negative(), 3);
    contribution.set_positive(8);
    contribution.set_negative(9);
    assert_eq!(contribution.positive(), 8);
    assert_eq!(contribution.negative(), 9);
}

#[test]
fn toggle_enable_disable_flip() {
    let mut toggle = Toggle::new(false);
    assert!(!toggle.enabled());
    toggle.enable();
    assert!(toggle.enabled());
    toggle.disable();
    assert!(!toggle.enabled());
    toggle.toggle();
    assert!(toggle.enabled());
    toggle.toggle();
    assert!(!toggle.enabled());
}

#[test]
fn assists_start_enabled_and_flip() {
    let mut linear = LinearAssist::new();
    assert!(linear.enabled());
    linear.toggle();
    assert!(!linear.enabled());

    let mut rotational = RotationalAssist::new();
    assert!(rotational.enabled());
    rotational.toggle();
    assert!(!rotational.enabled());
}

#[test]
fn assist_output_starts_at_zero() {
    let mut output = AssistOutput::new(0i64);
    assert_eq!(output.linear().x(), 0);
    assert_eq!(output.rotational().z(), 0);
    *output.linear_mut().x_mut() = 5;
    assert_eq!(output.linear().x(), 5);
}

#[test]
fn gsafety_state_starts_enabled_at_zero() {
    let mut safety = GForceSafety::new(0);
    assert!(safety.enabled());
    safety.toggle();
    assert!(!safety.enabled());
    assert_eq!(safety.linear().x(), 0);
    assert_eq!(safety.rotational().y(), 0);
    assert_eq!(safety.neg_linear().z(), 0);
    assert_eq!(safety.neg_rotational().x(), 0);
    // positive limits are kept at or above zero, negative ones at or below
    safety.linear_mut().set_x(-5);
    assert_eq!(safety.linear().x(), 0);
    safety.linear_mut().set_x(5);
    assert_eq!(safety.linear().x(), 5);
    safety.neg_linear_mut().set_x(5);
    assert_eq!(safety.neg_linear().x(), 0);
    safety.neg_linear_mut().set_x(-5);
    assert_eq!(safety.neg_linear().x(), -5);
}

#[test]
fn flight_control_system_holds_input_and_output() {
    let mut system = FlightControlSystem::new(0i64);
    assert_eq!(system.input().linear().x(), 0);
    assert_eq!(system.output().rotational().z(), 0);
    *system.input_mut().linear_mut().x_mut() = 1;
    *system.output_mut().rotational_mut().z_mut() = 2;
    assert_eq!(system.input().linear().x(), 1);
    assert_eq!(system.output().rotational().z(), 2);
}

#[test]
fn max_velocity_starts_at_zero() {
    let mut max_velocity = MaxVelocity::new(0i64);
    assert_eq!(max_velocity.linear().x(), 0);
    *max_velocity.linear_mut().x_mut() = 50;
    *max_velocity.rotational_mut().y_mut() = 25;
    assert_eq!(max_velocity.linear().x(), 50);
    assert_eq!(max_velocity.rotational().y(), 25);
}

#[test]
fn output_proportion_stays_inside_unit_interval() {
    let mut proportion = OutputProportion::new(1, 0);
    assert_eq!(proportion.linear().x(), 0);
    proportion.linear_mut().set_x(5);
    assert_eq!(proportion.linear().x(), 1);
    proportion.rotational_mut().set_y(-5);
    assert_eq!(proportion.rotational().y(), 0);
}

#[test]
fn bounded_dimension3_containers_saturate() {
    let mut floor = MinDimension3::new(-1, 0, 5, 0);
    assert_eq!(floor.x(), 0);
    assert_eq!(floor.y(), 0);
    assert_eq!(floor.z(), 5);
    floor.set_y(-3);
    assert_eq!(floor.y(), 0);
    floor.set_y(3);
    assert_eq!(floor.y(), 3);

    let mut ceiling = MaxDimension3::new(-1, 0, 5, 0);
    assert_eq!(ceiling.x(), -1);
    assert_eq!(ceiling.y(), 0);
    assert_eq!(ceiling.z(), 0);
    ceiling.set_z(-4);
    assert_eq!(ceiling.z(), -4);
    ceiling.set_z(4);
    assert_eq!(ceiling.z(), 0);

    let mut band = ClampedDimension3::new(-9, 9, 1, 2, -2);
    assert_eq!(band.x(), -2);
    assert_eq!(band.y(), 2);
    assert_eq!(band.z(), 1);
    band.set_x(7);
    assert_eq!(band.x(), 2);
}

#[test]
fn clamp_saturates_into_interval() {
    assert_eq!(clamp(55, -50, 50), 50);
    assert_eq!(clamp(-55, -50, 50), -50);
    assert_eq!(clamp(7, -50, 50), 7);
    assert_eq!(clamp(-50, -50, 50), -50);
    assert_eq!(clamp(50, -50, 50), 50);
}

#[test]
fn fcs_error_carries_its_message() {
    let error = FcsError::new("some configuration fault");
    assert_eq!(error.message(), "some configuration fault");
}
