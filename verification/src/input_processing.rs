//! The feedforward stage in its direct form: pilot input is turned into a
//! desired acceleration per scalar component, honouring the assist mode, the
//! configured maximum velocity and the asymmetric capability budget.

use vstd::prelude::*;

verus! {

use crate::components::{AxisContribution, ControlAxis, Toggle};
use crate::dimension3::Dimension3;
use crate::math::div_trunc;
use crate::{multiply_compare_zero_fits, spec_multiply_compare_zero};

/// What one scalar component of the feedforward stage produces.
///
/// With assist enabled, the input selects a target velocity (`input *
/// max_velocity`); the acceleration needed to reach it within one time step
/// is saturated into the asymmetric budget `[-negative, +positive]`.
///
/// With assist disabled, input past a velocity already at or beyond the
/// configured maximum (in the direction of the input) produces exactly zero;
/// otherwise the input directly scales the available acceleration on its own
/// side of the axis, and zero input produces exactly zero.
pub open spec fn spec_pilot_input_to_acceleration(
    assist_enabled: bool,
    input: int,
    max_velocity: int,
    velocity: int,
    positive: int,
    negative: int,
    delta_time: int,
) -> int {
    if assist_enabled {
        let desired_acceleration = div_trunc(input * max_velocity - velocity, delta_time);
        if desired_acceleration > positive {
            positive
        } else if desired_acceleration < -negative {
            -negative
        } else {
            desired_acceleration
        }
    } else {
        if (velocity >= max_velocity && input > 0) || (velocity <= -max_velocity && input < 0) {
            0
        } else {
            spec_multiply_compare_zero(input, positive, negative)
        }
    }
}

/// Every intermediate value of one scalar feedforward evaluation stays in
/// range.
pub open spec fn pilot_axis_fits(
    assist_enabled: bool,
    input: int,
    max_velocity: int,
    velocity: int,
    positive: int,
    negative: int,
) -> bool {
    if assist_enabled {
        &&& i64::MIN <= input * max_velocity <= i64::MAX
        &&& i64::MIN <= input * max_velocity - velocity <= i64::MAX
    } else {
        &&& i64::MIN <= -max_velocity <= i64::MAX
        &&& multiply_compare_zero_fits(input, positive, negative)
    }
}

/// One scalar component of the feedforward stage. See
/// [`spec_pilot_input_to_acceleration`] for what each branch produces.
pub fn pilot_input_to_acceleration(
    assist_enabled: bool,
    input: i64,
    max_velocity: i64,
    velocity: i64,
    available_acceleration: AxisContribution,
    delta_time: i64,
) -> (r: i64)
    requires
        delta_time > 0,
        available_acceleration.wf(),
        pilot_axis_fits(
            assist_enabled,
            input as int,
            max_velocity as int,
            velocity as int,
            available_acceleration.positive as int,
            available_acceleration.negative as int,
        ),
    ensures
        r == spec_pilot_input_to_acceleration(
            assist_enabled,
            input as int,
            max_velocity as int,
            velocity as int,
            available_acceleration.positive as int,
            available_acceleration.negative as int,
            delta_time as int,
        ),
{
    if assist_enabled {
        let desired_acceleration = ((input * max_velocity) - velocity) / delta_time;
        if desired_acceleration > available_acceleration.positive() {
            available_acceleration.positive()
        } else if desired_acceleration < -(available_acceleration.negative()) {
            -(available_acceleration.negative())
        } else {
            desired_acceleration
        }
    } else {
        if (velocity >= max_velocity && input > 0) || (velocity <= -max_velocity && input < 0) {
            0
        } else {
            if input > 0 {
                input * available_acceleration.positive()
            } else if input < 0 {
                input * available_acceleration.negative()
            } else {
                0
            }
        }
    }
}

/// With assist enabled, positive input toward a velocity still below the
/// selected target accelerates the craft: as long as the remaining velocity
/// gap spans at least one time step and the positive budget is not empty,
/// the feedforward output is strictly positive. This holds in both
/// iterations of the stage.
pub proof fn lemma_assist_positive_input_accelerates(
    input: int,
    max_velocity: int,
    velocity: int,
    positive: int,
    negative: int,
    delta_time: int,
)
    requires
        delta_time > 0,
        positive >= 1,
        negative >= 0,
        input > 0,
        velocity < max_velocity,
        input * max_velocity - velocity >= delta_time,
    ensures
        spec_pilot_input_to_acceleration(
            true,
            input,
            max_velocity,
            velocity,
            positive,
            negative,
            delta_time,
        ) > 0,
        crate::feedforward_controller::spec_calculate_axis_pilot_control_mode(
            true,
            input,
            max_velocity,
            velocity,
            positive,
            negative,
            delta_time,
        ) > 0,
{
    crate::math::lemma_div_trunc_sign(input * max_velocity - velocity, delta_time);
    crate::feedforward_controller::lemma_pilot_stage_iterations_agree(
        true,
        input,
        max_velocity,
        velocity,
        positive,
        negative,
        delta_time,
    );
}

/// The mirror image of [`lemma_assist_positive_input_accelerates`]:
/// negative input toward a velocity still above the selected target, with a
/// velocity gap of at least one time step and a non-empty negative budget,
/// produces a strictly negative feedforward output, in both iterations of
/// the stage.
pub proof fn lemma_assist_negative_input_decelerates(
    input: int,
    max_velocity: int,
    velocity: int,
    positive: int,
    negative: int,
    delta_time: int,
)
    requires
        delta_time > 0,
        positive >= 0,
        negative >= 1,
        input < 0,
        velocity > -max_velocity,
        input * max_velocity - velocity <= -delta_time,
    ensures
        spec_pilot_input_to_acceleration(
            true,
            input,
            max_velocity,
            velocity,
            positive,
            negative,
            delta_time,
        ) < 0,
        crate::feedforward_controller::spec_calculate_axis_pilot_control_mode(
            true,
            input,
            max_velocity,
            velocity,
            positive,
            negative,
            delta_time,
        ) < 0,
{
    crate::math::lemma_div_trunc_sign(input * max_velocity - velocity, delta_time);
    crate::feedforward_controller::lemma_pilot_stage_iterations_agree(
        true,
        input,
        max_velocity,
        velocity,
        positive,
        negative,
        delta_time,
    );
}

/// With assist disabled, input that would push a velocity already at or
/// beyond the configured maximum further in its own direction produces
/// exactly zero, in both iterations of the stage.
pub proof fn lemma_no_acceleration_past_max_velocity(
    input: int,
    max_velocity: int,
    velocity: int,
    positive: int,
    negative: int,
    delta_time: int,
)
    requires
        delta_time > 0,
        positive >= 0,
        negative >= 0,
        (velocity >= max_velocity && input > 0) || (velocity <= -max_velocity && input < 0),
    ensures
        spec_pilot_input_to_acceleration(
            false,
            input,
            max_velocity,
            velocity,
            positive,
            negative,
            delta_time,
        ) == 0,
        crate::feedforward_controller::spec_calculate_axis_pilot_control_mode(
            false,
            input,
            max_velocity,
            velocity,
            positive,
            negative,
            delta_time,
        ) == 0,
{
    crate::feedforward_controller::lemma_pilot_stage_iterations_agree(
        false,
        input,
        max_velocity,
        velocity,
        positive,
        negative,
        delta_time,
    );
}

/// Zero input produces exactly zero output: always with assist disabled,
/// whatever the current velocity; with assist enabled once the craft is at
/// rest, since assist otherwise brakes an already moving craft toward the
/// zero velocity that zero input selects. Both iterations of the stage
/// agree.
pub proof fn lemma_zero_input_zero_output(
    assist_enabled: bool,
    input: int,
    max_velocity: int,
    velocity: int,
    positive: int,
    negative: int,
    delta_time: int,
)
    requires
        delta_time > 0,
        positive >= 0,
        negative >= 0,
        input == 0,
        assist_enabled ==> velocity == 0,
    ensures
        spec_pilot_input_to_acceleration(
            assist_enabled,
            input,
            max_velocity,
            velocity,
            positive,
            negative,
            delta_time,
        ) == 0,
        crate::feedforward_controller::spec_calculate_axis_pilot_control_mode(
            assist_enabled,
            input,
            max_velocity,
            velocity,
            positive,
            negative,
            delta_time,
        ) == 0,
{
    if assist_enabled {
        vstd::arithmetic::div_mod::lemma_div_of0(delta_time);
    }
    crate::feedforward_controller::lemma_pilot_stage_iterations_agree(
        assist_enabled,
        input,
        max_velocity,
        velocity,
        positive,
        negative,
        delta_time,
    );
}

/// Every scalar component of a full feedforward evaluation stays in range.
pub open spec fn pilot_input_fits(
    input: ControlAxis<Dimension3<i64>>,
    linear_assist: bool,
    rotational_assist: bool,
    max_velocity: ControlAxis<Dimension3<i64>>,
    velocity: ControlAxis<Dimension3<i64>>,
    available_acceleration: ControlAxis<Dimension3<AxisContribution>>,
) -> bool {
    &&& available_acceleration.linear.x.wf()
    &&& available_acceleration.linear.y.wf()
    &&& available_acceleration.linear.z.wf()
    &&& available_acceleration.rotational.x.wf()
    &&& available_acceleration.rotational.y.wf()
    &&& available_acceleration.rotational.z.wf()
    &&& pilot_axis_fits(
        linear_assist,
        input.linear.x as int,
        max_velocity.linear.x as int,
        velocity.linear.x as int,
        available_acceleration.linear.x.positive as int,
        available_acceleration.linear.x.negative as int,
    )
    &&& pilot_axis_fits(
        linear_assist,
        input.linear.y as int,
        max_velocity.linear.y as int,
        velocity.linear.y as int,
        available_acceleration.linear.y.positive as int,
        available_acceleration.linear.y.negative as int,
    )
    &&& pilot_axis_fits(
        linear_assist,
        input.linear.z as int,
        max_velocity.linear.z as int,
        velocity.linear.z as int,
        available_acceleration.linear.z.positive as int,
        available_acceleration.linear.z.negative as int,
    )
    &&& pilot_axis_fits(
        rotational_assist,
        input.rotational.x as int,
        max_velocity.rotational.x as int,
        velocity.rotational.x as int,
        available_acceleration.rotational.x.positive as int,
        available_acceleration.rotational.x.negative as int,
    )
    &&& pilot_axis_fits(
        rotational_assist,
        input.rotational.y as int,
        max_velocity.rotational.y as int,
        velocity.rotational.y as int,
        available_acceleration.rotational.y.positive as int,
        available_acceleration.rotational.y.negative as int,
    )
    &&& pilot_axis_fits(
        rotational_assist,
        input.rotational.z as int,
        max_velocity.rotational.z as int,
        velocity.rotational.z as int,
        available_acceleration.rotational.z.positive as int,
        available_acceleration.rotational.z.negative as int,
    )
}

/// What one scalar component of the full feedforward evaluation produces,
/// with the budget taken from its `AxisContribution`.
pub open spec fn spec_pilot_axis(
    assist_enabled: bool,
    input: i64,
    max_velocity: i64,
    velocity: i64,
    acc: AxisContribution,
    delta_time: i64,
) -> int {
    spec_pilot_input_to_acceleration(
        assist_enabled,
        input as int,
        max_velocity as int,
        velocity as int,
        acc.positive as int,
        acc.negative as int,
        delta_time as int,
    )
}

/// The feedforward stage over all six scalar components: the three linear
/// components follow the linear assist toggle, the three rotational
/// components the rotational one; each component is evaluated independently.
pub fn process_pilot_input(
    input: &ControlAxis<Dimension3<i64>>,
    linear_assist: &Toggle,
    rotational_assist: &Toggle,
    max_velocity: &ControlAxis<Dimension3<i64>>,
    velocity: &ControlAxis<Dimension3<i64>>,
    available_acceleration: &ControlAxis<Dimension3<AxisContribution>>,
    delta_time: i64,
) -> (r: ControlAxis<Dimension3<i64>>)
    requires
        delta_time > 0,
        pilot_input_fits(
            *input,
            linear_assist.enabled,
            rotational_assist.enabled,
            *max_velocity,
            *velocity,
            *available_acceleration,
        ),
    ensures
        r.linear.x == spec_pilot_axis(
            linear_assist.enabled,
            input.linear.x,
            max_velocity.linear.x,
            velocity.linear.x,
            available_acceleration.linear.x,
            delta_time,
        ),
        r.linear.y == spec_pilot_axis(
            linear_assist.enabled,
            input.linear.y,
            max_velocity.linear.y,
            velocity.linear.y,
            available_acceleration.linear.y,
            delta_time,
        ),
        r.linear.z == spec_pilot_axis(
            linear_assist.enabled,
            input.linear.z,
            max_velocity.linear.z,
            velocity.linear.z,
            available_acceleration.linear.z,
            delta_time,
        ),
        r.rotational.x == spec_pilot_axis(
            rotational_assist.enabled,
            input.rotational.x,
            max_velocity.rotational.x,
            velocity.rotational.x,
            available_acceleration.rotational.x,
            delta_time,
        ),
        r.rotational.y == spec_pilot_axis(
            rotational_assist.enabled,
            input.rotational.y,
            max_velocity.rotational.y,
            velocity.rotational.y,
            available_acceleration.rotational.y,
            delta_time,
        ),
        r.rotational.z == spec_pilot_axis(
            rotational_assist.enabled,
            input.rotational.z,
            max_velocity.rotational.z,
            velocity.rotational.z,
            available_acceleration.rotational.z,
            delta_time,
        ),
{
    ControlAxis::new(
        Dimension3::new(
            pilot_input_to_acceleration(
                linear_assist.enabled(),
                input.linear.x,
                max_velocity.linear.x,
                velocity.linear.x,
                available_acceleration.linear.x,
                delta_time,
            ),
            pilot_input_to_acceleration(
                linear_assist.enabled(),
                input.linear.y,
                max_velocity.linear.y,
                velocity.linear.y,
                available_acceleration.linear.y,
                delta_time,
            ),
            pilot_input_to_acceleration(
                linear_assist.enabled(),
                input.linear.z,
                max_velocity.linear.z,
                velocity.linear.z,
                available_acceleration.linear.z,
                delta_time,
            ),
        ),
        Dimension3::new(
            pilot_input_to_acceleration(
                rotational_assist.enabled(),
                input.rotational.x,
                max_velocity.rotational.x,
                velocity.rotational.x,
                available_acceleration.rotational.x,
                delta_time,
            ),
            pilot_input_to_acceleration(
                rotational_assist.enabled(),
                input.rotational.y,
                max_velocity.rotational.y,
                velocity.rotational.y,
                available_acceleration.rotational.y,
                delta_time,
            ),
            pilot_input_to_acceleration(
                rotational_assist.enabled(),
                input.rotational.z,
                max_velocity.rotational.z,
                velocity.rotational.z,
                available_acceleration.rotational.z,
                delta_time,
            ),
        ),
    )
}

} // verus!
