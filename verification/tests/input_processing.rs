use fcs::components::{AxisContribution, ControlAxis, Toggle};
use fcs::dimension3::Dimension3;
use fcs::input_processing::{pilot_input_to_acceleration, process_pilot_input};

// axis pilot control mode

#[test]
fn input_processing_axis_pilot_control_output_valid_when_input_positive_and_assist_enabled() {
    let output: i64 = pilot_input_to_acceleration(true, 1, 50, 0, AxisContribution::new(1, 1), 1);
    assert!(output > 0);
}

#[test]
fn input_processing_axis_pilot_control_output_valid_when_input_positive_and_assist_disabled() {
    let output = pilot_input_to_acceleration(false, 1, 50, 0, AxisContribution::new(1, 1), 1);
    assert!(output > 0);
}

#[test]
fn input_processing_axis_pilot_control_output_valid_when_input_negative_and_assist_enabled() {
    let output: i64 = pilot_input_to_acceleration(true, -1, 50, 0, AxisContribution::new(1, 1), 1);
    assert!(output < 0);
}

#[test]
fn input_processing_axis_pilot_control_output_valid_when_input_negative_and_assist_disabled() {
    let output: i64 = pilot_input_to_acceleration(false, -1, 50, 0, AxisContribution::new(1, 1), 1);
    assert!(output < 0);
}

#[test]
fn input_processing_axis_pilot_control_output_valid_when_input_zero_and_assist_enabled() {
    let pilot_control_vel_output: i64 = pilot_input_to_acceleration(
        true,
        0,
        50,
        0,
        AxisContribution::new(1, 1),
        1,
    );
    assert_eq!(pilot_control_vel_output, 0);
}

#[test]
fn input_processing_axis_pilot_control_output_valid_when_input_zero_and_assist_disabled() {
    let pilot_control_acc_output: i64 = pilot_input_to_acceleration(
        false,
        0,
        50,
        0,
        AxisContribution::new(1, 1),
        1,
    );
    assert_eq!(pilot_control_acc_output, 0);
}

// public interface

#[test]
fn input_processing_test_calculate_pilot_control_mode_acceleration_with_pos_input_and_assists_on() {
    let max_velocity = ControlAxis::new(Dimension3::default(50), Dimension3::default(50));
    let velocity = ControlAxis::new(Dimension3::default(0), Dimension3::default(0));
    let available_acceleration = ControlAxis::new(
        Dimension3::default(AxisContribution::new(1, 1)),
        Dimension3::default(AxisContribution::new(1, 1)),
    );

    let output: ControlAxis<Dimension3<i64>> = process_pilot_input(
        &ControlAxis::new(Dimension3::default(1), Dimension3::default(1)),
        &Toggle::new(true),
        &Toggle::new(true),
        &max_velocity,
        &velocity,
        &available_acceleration,
        1,
    );
    assert_eq!(output.linear().x(), 1);
    assert_eq!(output.linear().y(), 1);
    assert_eq!(output.linear().z(), 1);
    assert_eq!(output.rotational().x(), 1);
    assert_eq!(output.rotational().y(), 1);
    assert_eq!(output.rotational().z(), 1);
}

#[test]
fn input_processing_test_calculate_pilot_control_mode_acceleration_with_neg_input_and_assists_on() {
    let max_velocity = ControlAxis::new(Dimension3::default(50), Dimension3::default(50));
    let velocity = ControlAxis::new(Dimension3::default(0), Dimension3::default(0));
    let available_acceleration = ControlAxis::new(
        Dimension3::default(AxisContribution::new(1, 1)),
        Dimension3::default(AxisContribution::new(1, 1)),
    );

    let output: ControlAxis<Dimension3<i64>> = process_pilot_input(
        &ControlAxis::new(Dimension3::default(-1), Dimension3::default(-1)),
        &Toggle::new(true),
        &Toggle::new(true),
        &max_velocity,
        &velocity,
        &available_acceleration,
        1,
    );
    assert_eq!(output.linear().x(), -1);
    assert_eq!(output.linear().y(), -1);
    assert_eq!(output.linear().z(), -1);
    assert_eq!(output.rotational().x(), -1);
    assert_eq!(output.rotational().y(), -1);
    assert_eq!(output.rotational().z(), -1);
}

#[test]
fn input_processing_test_calculate_pilot_control_mode_acceleration_with_pos_input_and_assists_off() {
    let max_velocity = ControlAxis::new(Dimension3::default(50), Dimension3::default(50));
    let velocity = ControlAxis::new(Dimension3::default(0), Dimension3::default(0));
    let available_acceleration = ControlAxis::new(
        Dimension3::default(AxisContribution::new(1, 1)),
        Dimension3::default(AxisContribution::new(1, 1)),
    );

    let output: ControlAxis<Dimension3<i64>> = process_pilot_input(
        &ControlAxis::new(Dimension3::default(1), Dimension3::default(1)),
        &Toggle::new(false),
        &Toggle::new(false),
        &max_velocity,
        &velocity,
        &available_acceleration,
        1,
    );
    assert_eq!(output.linear().x(), 1);
    assert_eq!(output.linear().y(), 1);
    assert_eq!(output.linear().z(), 1);
    assert_eq!(output.rotational().x(), 1);
    assert_eq!(output.rotational().y(), 1);
    assert_eq!(output.rotational().z(), 1);
}

#[test]
fn input_processing_test_calculate_pilot_control_mode_acceleration_with_neg_input_and_assists_off() {
    let max_velocity = ControlAxis::new(Dimension3::default(50), Dimension3::default(50));
    let velocity = ControlAxis::new(Dimension3::default(0), Dimension3::default(0));
    let available_acceleration = ControlAxis::new(
        Dimension3::default(AxisContribution::new(1, 1)),
        Dimension3::default(AxisContribution::new(1, 1)),
    );

    let output: ControlAxis<Dimension3<i64>> = process_pilot_input(
        &ControlAxis::new(Dimension3::default(-1), Dimension3::default(-1)),
        &Toggle::new(false),
        &Toggle::new(false),
        &max_velocity,
        &velocity,
        &available_acceleration,
        1,
    );
    assert_eq!(output.linear().x(), -1);
    assert_eq!(output.linear().y(), -1);
    assert_eq!(output.linear().z(), -1);
    assert_eq!(output.rotational().x(), -1);
    assert_eq!(output.rotational().y(), -1);
    assert_eq!(output.rotational().z(), -1);
}

// autonomous control mode

#[test]
fn test_autonomous_mode_does_something() {}
