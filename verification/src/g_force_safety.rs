//! The g-force safety clamp: when engaged, it restricts the combined
//! desired acceleration to pilot-specified limits, reducing risk to
//! biological life and equipment during extreme maneuvers.
//!
//! The stage runs after the combiner and before the propulsion realizer;
//! each scalar component is saturated independently into its own asymmetric
//! limit pair — no proportional scale-down of the whole vector is performed.
//! When the safety toggle is disabled the host passes the combined
//! acceleration through unchanged instead of calling this stage.

use vstd::prelude::*;

verus! {

use crate::components::{AxisContribution, ControlAxis};
use crate::dimension3::Dimension3;
use crate::math::{clamp, spec_clamp};

/// What one clamped scalar component is: the desired acceleration saturated
/// into `[-negative_limit, +positive_limit]`.
pub open spec fn spec_gsafety_axis(desired: i64, limit: AxisContribution) -> int {
    spec_clamp(desired as int, -(limit.negative as int), limit.positive as int)
}

/// Every limit pair holds non-negative magnitudes.
pub open spec fn gsafety_limits_wf(limits: ControlAxis<Dimension3<AxisContribution>>) -> bool {
    &&& limits.linear.x.wf()
    &&& limits.linear.y.wf()
    &&& limits.linear.z.wf()
    &&& limits.rotational.x.wf()
    &&& limits.rotational.y.wf()
    &&& limits.rotational.z.wf()
}

/// Saturates every scalar component of the combined desired acceleration
/// into the pilot-set asymmetric limits for its axis and sign.
pub fn process(
    desired_acceleration: &ControlAxis<Dimension3<i64>>,
    gsafety_max_acceleration: &ControlAxis<Dimension3<AxisContribution>>,
) -> (r: ControlAxis<Dimension3<i64>>)
    requires
        gsafety_limits_wf(*gsafety_max_acceleration),
    ensures
        r.linear.x == spec_gsafety_axis(
            desired_acceleration.linear.x,
            gsafety_max_acceleration.linear.x,
        ),
        r.linear.y == spec_gsafety_axis(
            desired_acceleration.linear.y,
            gsafety_max_acceleration.linear.y,
        ),
        r.linear.z == spec_gsafety_axis(
            desired_acceleration.linear.z,
            gsafety_max_acceleration.linear.z,
        ),
        r.rotational.x == spec_gsafety_axis(
            desired_acceleration.rotational.x,
            gsafety_max_acceleration.rotational.x,
        ),
        r.rotational.y == spec_gsafety_axis(
            desired_acceleration.rotational.y,
            gsafety_max_acceleration.rotational.y,
        ),
        r.rotational.z == spec_gsafety_axis(
            desired_acceleration.rotational.z,
            gsafety_max_acceleration.rotational.z,
        ),
{
    ControlAxis::new(
        Dimension3::new(
            clamp(
                desired_acceleration.linear.x,
                -(gsafety_max_acceleration.linear.x.negative()),
                gsafety_max_acceleration.linear.x.positive(),
            ),
            clamp(
                desired_acceleration.linear.y,
                -(gsafety_max_acceleration.linear.y.negative()),
                gsafety_max_acceleration.linear.y.positive(),
            ),
            clamp(
                desired_acceleration.linear.z,
                -(gsafety_max_acceleration.linear.z.negative()),
                gsafety_max_acceleration.linear.z.positive(),
            ),
        ),
        Dimension3::new(
            clamp(
                desired_acceleration.rotational.x,
                -(gsafety_max_acceleration.rotational.x.negative()),
                gsafety_max_acceleration.rotational.x.positive(),
            ),
            clamp(
                desired_acceleration.rotational.y,
                -(gsafety_max_acceleration.rotational.y.negative()),
                gsafety_max_acceleration.rotational.y.positive(),
            ),
            clamp(
                desired_acceleration.rotational.z,
                -(gsafety_max_acceleration.rotational.z.negative()),
                gsafety_max_acceleration.rotational.z.positive(),
            ),
        ),
    )
}

/// A component already inside its limits passes through the safety clamp
/// unchanged, and a component outside them is replaced by the limit it
/// exceeded, exactly.
pub proof fn lemma_gsafety_saturates(desired: i64, limit: AxisContribution)
    requires
        limit.wf(),
    ensures
        -limit.negative <= desired <= limit.positive ==> spec_gsafety_axis(desired, limit)
            == desired,
        desired > limit.positive ==> spec_gsafety_axis(desired, limit) == limit.positive,
        desired < -limit.negative ==> spec_gsafety_axis(desired, limit) == -limit.negative,
{
}

} // verus!
