use fcs::components::{AxisContribution, ControlAxis, Toggle};
use fcs::dimension3::Dimension3;
use fcs::feedforward_controller::{
    acceleration_control, calculate_axis_pilot_control_mode,
    calculate_pilot_control_mode_acceleration, velocity_control,
};

// velocity control

#[test]
fn velocity_control_output_is_valid_with_positive_input() {
    let output: i64 = velocity_control(50, 0, 1);
    assert!(output > 0);
}

#[test]
fn velocity_control_output_is_valid_with_negative_input() {
    let output: i64 = velocity_control(-50, 0, 1);
    assert!(output < 0);
}

#[test]
fn velocity_control_output_is_valid_with_zero_input() {
    let output: i64 = velocity_control(0, 0, 1);
    assert_eq!(output, 0);
}

// acceleration control

#[test]
fn acceleration_control_clamps_at_max_velocity() {
    let output: i64 = acceleration_control(55, 50, 1);
    assert_eq!(output, 0);
}

#[test]
fn acceleration_control_clamps_at_negative_max_velocity() {
    let output: i64 = acceleration_control(-55, 50, -1);
    assert_eq!(output, 0);
}

#[test]
fn acceleration_control_output_is_valid_with_positive_input() {
    let output: i64 = acceleration_control(0, 50, 1);
    assert!(output > 0);
}

#[test]
fn acceleration_control_output_is_valid_with_negative_input() {
    let output: i64 = acceleration_control(0, 50, -1);
    assert!(output < 0);
}

#[test]
fn acceleration_control_output_is_valid_with_zero_input() {
    let output: i64 = acceleration_control(0, 50, 0);
    assert_eq!(output, 0);
}

// axis pilot control mode

#[test]
fn feedforward_controller_axis_pilot_control_output_valid_when_input_positive_and_assist_enabled() {
    let output: i64 = calculate_axis_pilot_control_mode(
        true,
        1,
        50,
        0,
        AxisContribution::new(1, 1),
        1,
    );
    assert!(output > 0);
}

#[test]
fn feedforward_controller_axis_pilot_control_output_valid_when_input_positive_and_assist_disabled() {
    let output: i64 = calculate_axis_pilot_control_mode(
        false,
        1,
        50,
        0,
        AxisContribution::new(1, 1),
        1,
    );
    assert!(output > 0);
}

#[test]
fn feedforward_controller_axis_pilot_control_output_valid_when_input_negative_and_assist_enabled() {
    let output: i64 = calculate_axis_pilot_control_mode(
        true,
        -1,
        50,
        0,
        AxisContribution::new(1, 1),
        1,
    );
    assert!(output < 0);
}

#[test]
fn feedforward_controller_axis_pilot_control_output_valid_when_input_negative_and_assist_disabled() {
    let output: i64 = calculate_axis_pilot_control_mode(
        false,
        -1,
        50,
        0,
        AxisContribution::new(1, 1),
        1,
    );
    assert!(output < 0);
}

#[test]
fn feedforward_controller_axis_pilot_control_output_valid_when_input_zero_and_assist_enabled() {
    let pilot_control_vel_output: i64 = calculate_axis_pilot_control_mode(
        true,
        0,
        50,
        0,
        AxisContribution::new(1, 1),
        1,
    );
    assert_eq!(pilot_control_vel_output, 0);
}

#[test]
fn feedforward_controller_axis_pilot_control_output_valid_when_input_zero_and_assist_disabled() {
    let pilot_control_acc_output: i64 = calculate_axis_pilot_control_mode(
        false,
        0,
        50,
        0,
        AxisContribution::new(1, 1),
        1,
    );
    assert_eq!(pilot_control_acc_output, 0);
}

// public interface

#[test]
fn feedforward_controller_test_calculate_pilot_control_mode_acceleration_with_pos_input_and_assists_on() {
    let max_velocity = ControlAxis::new(Dimension3::default(50), Dimension3::default(50));
    let velocity = ControlAxis::new(Dimension3::default(0), Dimension3::default(0));
    let available_acceleration = ControlAxis::new(
        Dimension3::default(AxisContribution::new(1, 1)),
        Dimension3::default(AxisContribution::new(1, 1)),
    );

    let output: ControlAxis<Dimension3<i64>> = calculate_pilot_control_mode_acceleration(
        &ControlAxis::new(Dimension3::default(1), Dimension3::default(1)),
        &Toggle::new(true),
        &Toggle::new(true),
        &max_velocity,
        &velocity,
        &available_acceleration,
        1,
    );
    assert_eq!(output.linear().x(), 1);
    assert_eq!(output.linear().y(), 1);
    assert_eq!(output.linear().z(), 1);
    assert_eq!(output.rotational().x(), 1);
    assert_eq!(output.rotational().y(), 1);
    assert_eq!(output.rotational().z(), 1);
}

#[test]
fn feedforward_controller_test_calculate_pilot_control_mode_acceleration_with_neg_input_and_assists_on() {
    let max_velocity = ControlAxis::new(Dimension3::default(50), Dimension3::default(50));
    let velocity = ControlAxis::new(Dimension3::default(0), Dimension3::default(0));
    let available_acceleration = ControlAxis::new(
        Dimension3::default(AxisContribution::new(1, 1)),
        Dimension3::default(AxisContribution::new(1, 1)),
    );

    let output: ControlAxis<Dimension3<i64>> = calculate_pilot_control_mode_acceleration(
        &ControlAxis::new(Dimension3::default(-1), Dimension3::default(-1)),
        &Toggle::new(true),
        &Toggle::new(true),
        &max_velocity,
        &velocity,
        &available_acceleration,
        1,
    );
    assert_eq!(output.linear().x(), -1);
    assert_eq!(output.linear().y(), -1);
    assert_eq!(output.linear().z(), -1);
    assert_eq!(output.rotational().x(), -1);
    assert_eq!(output.rotational().y(), -1);
    assert_eq!(output.rotational().z(), -1);
}

#[test]
fn feedforward_controller_test_calculate_pilot_control_mode_acceleration_with_pos_input_and_assists_off() {
    let max_velocity = ControlAxis::new(Dimension3::default(50), Dimension3::default(50));
    let velocity = ControlAxis::new(Dimension3::default(0), Dimension3::default(0));
    let available_acceleration = ControlAxis::new(
        Dimension3::default(AxisContribution::new(1, 1)),
        Dimension3::default(AxisContribution::new(1, 1)),
    );

    let output: ControlAxis<Dimension3<i64>> = calculate_pilot_control_mode_acceleration(
        &ControlAxis::new(Dimension3::default(1), Dimension3::default(1)),
        &Toggle::new(false),
        &Toggle::new(false),
        &max_velocity,
        &velocity,
        &available_acceleration,
        1,
    );
    assert_eq!(output.linear().x(), 1);
    assert_eq!(output.linear().y(), 1);
    assert_eq!(output.linear().z(), 1);
    assert_eq!(output.rotational().x(), 1);
    assert_eq!(output.rotational().y(), 1);
    assert_eq!(output.rotational().z(), 1);
}

#[test]
fn feedforward_controller_test_calculate_pilot_control_mode_acceleration_with_neg_input_and_assists_off() {
    let max_velocity = ControlAxis::new(Dimension3::default(50), Dimension3::default(50));
    let velocity = ControlAxis::new(Dimension3::default(0), Dimension3::default(0));
    let available_acceleration = ControlAxis::new(
        Dimension3::default(AxisContribution::new(1, 1)),
        Dimension3::default(AxisContribution::new(1, 1)),
    );

    let output: ControlAxis<Dimension3<i64>> = calculate_pilot_control_mode_acceleration(
        &ControlAxis::new(Dimension3::default(-1), Dimension3::default(-1)),
        &Toggle::new(false),
        &Toggle::new(false),
        &max_velocity,
        &velocity,
        &available_acceleration,
        1,
    );
    assert_eq!(output.linear().x(), -1);
    assert_eq!(output.linear().y(), -1);
    assert_eq!(output.linear().z(), -1);
    assert_eq!(output.rotational().x(), -1);
    assert_eq!(output.rotational().y(), -1);
    assert_eq!(output.rotational().z(), -1);
}
