//! The feedforward stage in its layered form: a velocity-control layer and
//! an acceleration-control layer combined per assist mode, plus autonomous
//! mode, which cascades position tracking into velocity tracking into
//! acceleration.

use vstd::prelude::*;

verus! {

use crate::components::{AxisContribution, ControlAxis, Toggle};
use crate::dimension3::Dimension3;
use crate::math::{clamp, div_trunc, spec_clamp};
use crate::{multiply_compare_zero, multiply_compare_zero_fits, spec_multiply_compare_zero};

/// What [`velocity_control`] returns: the acceleration that closes the gap
/// between the desired and the current velocity within one time step.
pub open spec fn spec_velocity_control(desired_velocity: int, velocity: int, delta_time: int) -> int {
    div_trunc(desired_velocity - velocity, delta_time)
}

/// The acceleration needed to change the current velocity into the desired
/// one over the time step `delta_time`: the derivative of velocity is
/// acceleration.
pub fn velocity_control(desired_velocity: i64, velocity: i64, delta_time: i64) -> (r: i64)
    requires
        delta_time > 0,
        i64::MIN <= desired_velocity - velocity <= i64::MAX,
    ensures
        r == spec_velocity_control(desired_velocity as int, velocity as int, delta_time as int),
{
    let delta_velocity = desired_velocity - velocity;
    delta_velocity / delta_time
}

/// What [`acceleration_control`] returns: the input, except that input
/// pushing a velocity already at or beyond the configured maximum further in
/// the same direction is replaced by exactly zero.
pub open spec fn spec_acceleration_control(velocity: int, max_velocity: int, input: int) -> int {
    if (velocity >= max_velocity && input > 0) || (velocity <= -max_velocity && input < 0) {
        0
    } else {
        input
    }
}

/// Suppresses input that would accelerate past the configured maximum
/// velocity; all other input passes through unchanged.
pub fn acceleration_control(velocity: i64, max_velocity: i64, input: i64) -> (r: i64)
    requires
        i64::MIN <= -max_velocity <= i64::MAX,
    ensures
        r == spec_acceleration_control(velocity as int, max_velocity as int, input as int),
{
    if (velocity >= max_velocity && input > 0) || (velocity <= -max_velocity && input < 0) {
        0
    } else {
        input
    }
}

/// What one scalar component of the pilot-control feedforward stage
/// produces: with assist enabled, the velocity-control acceleration
/// saturated into the asymmetric budget; with assist disabled, the
/// velocity-limited input scaled by the budget on its own side of the axis.
pub open spec fn spec_calculate_axis_pilot_control_mode(
    assist_enabled: bool,
    input: int,
    max_velocity: int,
    velocity: int,
    positive: int,
    negative: int,
    delta_time: int,
) -> int {
    if assist_enabled {
        spec_clamp(
            spec_velocity_control(input * max_velocity, velocity, delta_time),
            -negative,
            positive,
        )
    } else {
        spec_multiply_compare_zero(
            spec_acceleration_control(velocity, max_velocity, input),
            positive,
            negative,
        )
    }
}

/// Every intermediate value of one scalar pilot-control evaluation stays in
/// range.
pub open spec fn axis_pilot_control_fits(
    assist_enabled: bool,
    input: int,
    max_velocity: int,
    velocity: int,
    positive: int,
    negative: int,
) -> bool {
    if assist_enabled {
        &&& i64::MIN <= input * max_velocity <= i64::MAX
        &&& i64::MIN <= input * max_velocity - velocity <= i64::MAX
    } else {
        &&& i64::MIN <= -max_velocity <= i64::MAX
        &&& multiply_compare_zero_fits(
            spec_acceleration_control(velocity, max_velocity, input),
            positive,
            negative,
        )
    }
}

/// One scalar component of the pilot-control feedforward stage.
pub fn calculate_axis_pilot_control_mode(
    assist_enabled: bool,
    input: i64,
    max_velocity: i64,
    velocity: i64,
    available_acceleration: AxisContribution,
    delta_time: i64,
) -> (r: i64)
    requires
        delta_time > 0,
        available_acceleration.wf(),
        axis_pilot_control_fits(
            assist_enabled,
            input as int,
            max_velocity as int,
            velocity as int,
            available_acceleration.positive as int,
            available_acceleration.negative as int,
        ),
    ensures
        r == spec_calculate_axis_pilot_control_mode(
            assist_enabled,
            input as int,
            max_velocity as int,
            velocity as int,
            available_acceleration.positive as int,
            available_acceleration.negative as int,
            delta_time as int,
        ),
{
    if assist_enabled {
        clamp(
            velocity_control(input * max_velocity, velocity, delta_time),
            -(available_acceleration.negative()),
            available_acceleration.positive(),
        )
    } else {
        multiply_compare_zero(
            acceleration_control(velocity, max_velocity, input),
            available_acceleration.positive(),
            available_acceleration.negative(),
        )
    }
}

/// The two iterations of the pilot-control feedforward stage agree: the
/// layered clamp form computes the same value as the direct branching form,
/// for every input over a well-formed budget.
pub proof fn lemma_pilot_stage_iterations_agree(
    assist_enabled: bool,
    input: int,
    max_velocity: int,
    velocity: int,
    positive: int,
    negative: int,
    delta_time: int,
)
    requires
        delta_time > 0,
        positive >= 0,
        negative >= 0,
    ensures
        spec_calculate_axis_pilot_control_mode(
            assist_enabled,
            input,
            max_velocity,
            velocity,
            positive,
            negative,
            delta_time,
        ) == crate::input_processing::spec_pilot_input_to_acceleration(
            assist_enabled,
            input,
            max_velocity,
            velocity,
            positive,
            negative,
            delta_time,
        ),
{
}

/// Every scalar component of a full pilot-control evaluation stays in
/// range.
pub open spec fn pilot_control_fits(
    input: ControlAxis<Dimension3<i64>>,
    linear_assist: bool,
    rotational_assist: bool,
    max_velocity: ControlAxis<Dimension3<i64>>,
    velocity: ControlAxis<Dimension3<i64>>,
    available_acceleration: ControlAxis<Dimension3<AxisContribution>>,
) -> bool {
    &&& available_acceleration.linear.x.wf()
    &&& available_acceleration.linear.y.wf()
    &&& available_acceleration.linear.z.wf()
    &&& available_acceleration.rotational.x.wf()
    &&& available_acceleration.rotational.y.wf()
    &&& available_acceleration.rotational.z.wf()
    &&& axis_pilot_control_fits(
        linear_assist,
        input.linear.x as int,
        max_velocity.linear.x as int,
        velocity.linear.x as int,
        available_acceleration.linear.x.positive as int,
        available_acceleration.linear.x.negative as int,
    )
    &&& axis_pilot_control_fits(
        linear_assist,
        input.linear.y as int,
        max_velocity.linear.y as int,
        velocity.linear.y as int,
        available_acceleration.linear.y.positive as int,
        available_acceleration.linear.y.negative as int,
    )
    &&& axis_pilot_control_fits(
        linear_assist,
        input.linear.z as int,
        max_velocity.linear.z as int,
        velocity.linear.z as int,
        available_acceleration.linear.z.positive as int,
        available_acceleration.linear.z.negative as int,
    )
    &&& axis_pilot_control_fits(
        rotational_assist,
        input.rotational.x as int,
        max_velocity.rotational.x as int,
        velocity.rotational.x as int,
        available_acceleration.rotational.x.positive as int,
        available_acceleration.rotational.x.negative as int,
    )
    &&& axis_pilot_control_fits(
        rotational_assist,
        input.rotational.y as int,
        max_velocity.rotational.y as int,
        velocity.rotational.y as int,
        available_acceleration.rotational.y.positive as int,
        available_acceleration.rotational.y.negative as int,
    )
    &&& axis_pilot_control_fits(
        rotational_assist,
        input.rotational.z as int,
        max_velocity.rotational.z as int,
        velocity.rotational.z as int,
        available_acceleration.rotational.z.positive as int,
        available_acceleration.rotational.z.negative as int,
    )
}

/// What one scalar component of the full pilot-control evaluation produces,
/// with the budget taken from its `AxisContribution`.
pub open spec fn spec_pilot_control_axis(
    assist_enabled: bool,
    input: i64,
    max_velocity: i64,
    velocity: i64,
    acc: AxisContribution,
    delta_time: i64,
) -> int {
    spec_calculate_axis_pilot_control_mode(
        assist_enabled,
        input as int,
        max_velocity as int,
        velocity as int,
        acc.positive as int,
        acc.negative as int,
        delta_time as int,
    )
}

/// The pilot-control feedforward stage over all six scalar components: the
/// three linear components follow the linear assist toggle, the three
/// rotational components the rotational one.
pub fn calculate_pilot_control_mode_acceleration(
    input: &ControlAxis<Dimension3<i64>>,
    linear_assist: &Toggle,
    rotational_assist: &Toggle,
    max_velocity: &ControlAxis<Dimension3<i64>>,
    velocity: &ControlAxis<Dimension3<i64>>,
    available_acceleration: &ControlAxis<Dimension3<AxisContribution>>,
    delta_time: i64,
) -> (r: ControlAxis<Dimension3<i64>>)
    requires
        delta_time > 0,
        pilot_control_fits(
            *input,
            linear_assist.enabled,
            rotational_assist.enabled,
            *max_velocity,
            *velocity,
            *available_acceleration,
        ),
    ensures
        r.linear.x == spec_pilot_control_axis(
            linear_assist.enabled,
            input.linear.x,
            max_velocity.linear.x,
            velocity.linear.x,
            available_acceleration.linear.x,
            delta_time,
        ),
        r.linear.y == spec_pilot_control_axis(
            linear_assist.enabled,
            input.linear.y,
            max_velocity.linear.y,
            velocity.linear.y,
            available_acceleration.linear.y,
            delta_time,
        ),
        r.linear.z == spec_pilot_control_axis(
            linear_assist.enabled,
            input.linear.z,
            max_velocity.linear.z,
            velocity.linear.z,
            available_acceleration.linear.z,
            delta_time,
        ),
        r.rotational.x == spec_pilot_control_axis(
            rotational_assist.enabled,
            input.rotational.x,
            max_velocity.rotational.x,
            velocity.rotational.x,
            available_acceleration.rotational.x,
            delta_time,
        ),
        r.rotational.y == spec_pilot_control_axis(
            rotational_assist.enabled,
            input.rotational.y,
            max_velocity.rotational.y,
            velocity.rotational.y,
            available_acceleration.rotational.y,
            delta_time,
        ),
        r.rotational.z == spec_pilot_control_axis(
            rotational_assist.enabled,
            input.rotational.z,
            max_velocity.rotational.z,
            velocity.rotational.z,
            available_acceleration.rotational.z,
            delta_time,
        ),
{
    ControlAxis::new(
        Dimension3::new(
            calculate_axis_pilot_control_mode(
                linear_assist.enabled(),
                input.linear.x,
                max_velocity.linear.x,
                velocity.linear.x,
                available_acceleration.linear.x,
                delta_time,
            ),
            calculate_axis_pilot_control_mode(
                linear_assist.enabled(),
                input.linear.y,
                max_velocity.linear.y,
                velocity.linear.y,
                available_acceleration.linear.y,
                delta_time,
            ),
            calculate_axis_pilot_control_mode(
                linear_assist.enabled(),
                input.linear.z,
                max_velocity.linear.z,
                velocity.linear.z,
                available_acceleration.linear.z,
                delta_time,
            ),
        ),
        Dimension3::new(
            calculate_axis_pilot_control_mode(
                rotational_assist.enabled(),
                input.rotational.x,
                max_velocity.rotational.x,
                velocity.rotational.x,
                available_acceleration.rotational.x,
                delta_time,
            ),
            calculate_axis_pilot_control_mode(
                rotational_assist.enabled(),
                input.rotational.y,
                max_velocity.rotational.y,
                velocity.rotational.y,
                available_acceleration.rotational.y,
                delta_time,
            ),
            calculate_axis_pilot_control_mode(
                rotational_assist.enabled(),
                input.rotational.z,
                max_velocity.rotational.z,
                velocity.rotational.z,
                available_acceleration.rotational.z,
                delta_time,
            ),
        ),
    )
}

/// What one scalar component of autonomous mode produces: the velocity that
/// would close the position gap within one time step, saturated into the
/// symmetric band `[-max_velocity, +max_velocity]`, cascaded into velocity
/// control and saturated into the asymmetric budget.
pub open spec fn spec_calculate_axis_autonomous_mode(
    goal_position: int,
    position: int,
    velocity: int,
    max_velocity: int,
    positive: int,
    negative: int,
    delta_time: int,
) -> int {
    let desired_velocity = spec_clamp(
        div_trunc(goal_position - position, delta_time),
        -max_velocity,
        max_velocity,
    );
    spec_clamp(
        spec_velocity_control(desired_velocity, velocity, delta_time),
        -negative,
        positive,
    )
}

/// Every intermediate value of one scalar autonomous-mode evaluation stays
/// in range.
pub open spec fn axis_autonomous_fits(
    goal_position: int,
    position: int,
    velocity: int,
    max_velocity: int,
) -> bool {
    &&& max_velocity >= 0
    &&& i64::MIN <= goal_position - position <= i64::MAX
    &&& i64::MIN <= -max_velocity - velocity
    &&& max_velocity - velocity <= i64::MAX
}

/// One scalar component of autonomous mode: position tracking cascaded into
/// velocity tracking into acceleration.
pub fn calculate_axis_autonomous_mode(
    goal_position: i64,
    position: i64,
    velocity: i64,
    max_velocity: i64,
    available_acceleration: AxisContribution,
    delta_time: i64,
) -> (r: i64)
    requires
        delta_time > 0,
        available_acceleration.wf(),
        axis_autonomous_fits(
            goal_position as int,
            position as int,
            velocity as int,
            max_velocity as int,
        ),
    ensures
        r == spec_calculate_axis_autonomous_mode(
            goal_position as int,
            position as int,
            velocity as int,
            max_velocity as int,
            available_acceleration.positive as int,
            available_acceleration.negative as int,
            delta_time as int,
        ),
{
    let delta_position = goal_position - position;
    let desired_velocity = clamp(delta_position / delta_time, -(max_velocity), max_velocity);
    clamp(
        velocity_control(desired_velocity, velocity, delta_time),
        -(available_acceleration.negative()),
        available_acceleration.positive(),
    )
}

/// Every scalar component of a full autonomous-mode evaluation stays in
/// range, and the budget grid is well formed.
pub open spec fn autonomous_fits(
    goal_position: ControlAxis<Dimension3<i64>>,
    position: ControlAxis<Dimension3<i64>>,
    velocity: ControlAxis<Dimension3<i64>>,
    max_velocity: ControlAxis<Dimension3<i64>>,
    available_acceleration: ControlAxis<Dimension3<AxisContribution>>,
) -> bool {
    &&& available_acceleration.linear.x.wf()
    &&& available_acceleration.linear.y.wf()
    &&& available_acceleration.linear.z.wf()
    &&& available_acceleration.rotational.x.wf()
    &&& available_acceleration.rotational.y.wf()
    &&& available_acceleration.rotational.z.wf()
    &&& axis_autonomous_fits(
        goal_position.linear.x as int,
        position.linear.x as int,
        velocity.linear.x as int,
        max_velocity.linear.x as int,
    )
    &&& axis_autonomous_fits(
        goal_position.linear.y as int,
        position.linear.y as int,
        velocity.linear.y as int,
        max_velocity.linear.y as int,
    )
    &&& axis_autonomous_fits(
        goal_position.linear.z as int,
        position.linear.z as int,
        velocity.linear.z as int,
        max_velocity.linear.z as int,
    )
    &&& axis_autonomous_fits(
        goal_position.rotational.x as int,
        position.rotational.x as int,
        velocity.rotational.x as int,
        max_velocity.rotational.x as int,
    )
    &&& axis_autonomous_fits(
        goal_position.rotational.y as int,
        position.rotational.y as int,
        velocity.rotational.y as int,
        max_velocity.rotational.y as int,
    )
    &&& axis_autonomous_fits(
        goal_position.rotational.z as int,
        position.rotational.z as int,
        velocity.rotational.z as int,
        max_velocity.rotational.z as int,
    )
}

/// What one scalar component of the full autonomous-mode evaluation
/// produces, with the budget taken from its `AxisContribution`.
pub open spec fn spec_autonomous_axis(
    goal_position: i64,
    position: i64,
    velocity: i64,
    max_velocity: i64,
    acc: AxisContribution,
    delta_time: i64,
) -> int {
    spec_calculate_axis_autonomous_mode(
        goal_position as int,
        position as int,
        velocity as int,
        max_velocity as int,
        acc.positive as int,
        acc.negative as int,
        delta_time as int,
    )
}

/// Autonomous mode over all six scalar components: control derived from a
/// goal pose rather than pilot input, each component evaluated
/// independently.
pub fn calculate_autonomous_mode_acceleration(
    goal_position: &ControlAxis<Dimension3<i64>>,
    position: &ControlAxis<Dimension3<i64>>,
    velocity: &ControlAxis<Dimension3<i64>>,
    max_velocity: &ControlAxis<Dimension3<i64>>,
    available_acceleration: &ControlAxis<Dimension3<AxisContribution>>,
    delta_time: i64,
) -> (r: ControlAxis<Dimension3<i64>>)
    requires
        delta_time > 0,
        autonomous_fits(*goal_position, *position, *velocity, *max_velocity, *available_acceleration),
    ensures
        r.linear.x == spec_autonomous_axis(
            goal_position.linear.x,
            position.linear.x,
            velocity.linear.x,
            max_velocity.linear.x,
            available_acceleration.linear.x,
            delta_time,
        ),
        r.linear.y == spec_autonomous_axis(
            goal_position.linear.y,
            position.linear.y,
            velocity.linear.y,
            max_velocity.linear.y,
            available_acceleration.linear.y,
            delta_time,
        ),
        r.linear.z == spec_autonomous_axis(
            goal_position.linear.z,
            position.linear.z,
            velocity.linear.z,
            max_velocity.linear.z,
            available_acceleration.linear.z,
            delta_time,
        ),
        r.rotational.x == spec_autonomous_axis(
            goal_position.rotational.x,
            position.rotational.x,
            velocity.rotational.x,
            max_velocity.rotational.x,
            available_acceleration.rotational.x,
            delta_time,
        ),
        r.rotational.y == spec_autonomous_axis(
            goal_position.rotational.y,
            position.rotational.y,
            velocity.rotational.y,
            max_velocity.rotational.y,
            available_acceleration.rotational.y,
            delta_time,
        ),
        r.rotational.z == spec_autonomous_axis(
            goal_position.rotational.z,
            position.rotational.z,
            velocity.rotational.z,
            max_velocity.rotational.z,
            available_acceleration.rotational.z,
            delta_time,
        ),
{
    ControlAxis::new(
        Dimension3::new(
            calculate_axis_autonomous_mode(
                goal_position.linear.x,
                position.linear.x,
                velocity.linear.x,
                max_velocity.linear.x,
                available_acceleration.linear.x,
                delta_time,
            ),
            calculate_axis_autonomous_mode(
                goal_position.linear.y,
                position.linear.y,
                velocity.linear.y,
                max_velocity.linear.y,
                available_acceleration.linear.y,
                delta_time,
            ),
            calculate_axis_autonomous_mode(
                goal_position.linear.z,
                position.linear.z,
                velocity.linear.z,
                max_velocity.linear.z,
                available_acceleration.linear.z,
                delta_time,
            ),
        ),
        Dimension3::new(
            calculate_axis_autonomous_mode(
                goal_position.rotational.x,
                position.rotational.x,
                velocity.rotational.x,
                max_velocity.rotational.x,
                available_acceleration.rotational.x,
                delta_time,
            ),
            calculate_axis_autonomous_mode(
                goal_position.rotational.y,
                position.rotational.y,
                velocity.rotational.y,
                max_velocity.rotational.y,
                available_acceleration.rotational.y,
                delta_time,
            ),
            calculate_axis_autonomous_mode(
                goal_position.rotational.z,
                position.rotational.z,
                velocity.rotational.z,
                max_velocity.rotational.z,
                available_acceleration.rotational.z,
                delta_time,
            ),
        ),
    )
}

} // verus!
