//! Control-signal pipeline of a six-degree-of-freedom vehicle flight
//! controller.
//!
//! The pipeline turns pilot intent (or an autonomous goal pose) into a
//! bounded, physically realizable acceleration command, and turns that
//! command into a thrust request consistent with an actual, possibly
//! asymmetric, propulsion layout. The stages are:
//!
//! - a capability model deriving per-axis acceleration/thrust budgets from a
//!   thruster layout ([`propulsion_control`]),
//! - a feedforward stage mapping input or a goal pose to a desired
//!   acceleration ([`input_processing`], [`feedforward_controller`]),
//! - a feedback stage trimming residual error through six independent PID
//!   loops ([`feedback_controller`]),
//! - a combiner summing the two contributions ([`sum_d3_control_axes`]),
//! - a g-force safety clamp bounding the combined output
//!   ([`g_force_safety`]), and
//! - a propulsion realizer converting bounded acceleration into a thrust
//!   requirement ([`propulsion_control`]).
//!
//! All quantities are `i64` scalars; every stage is a total function over
//! the inputs admitted by its `requires` clause, and each contract pins the
//! result down exactly.

use vstd::prelude::*;

pub mod components;
pub mod dimension3;
pub mod feedback_controller;
pub mod feedforward_controller;
pub mod g_force_safety;
pub mod input_processing;
pub mod math;
pub mod propulsion_control;

verus! {

use crate::components::ControlAxis;
use crate::dimension3::Dimension3;

/// Error raised by a configuration operation, such as attaching an
/// oversized thruster to a mount point.
#[derive(Debug, PartialEq)]
pub struct FcsError<'a> {
    pub message: &'a str,
}

impl<'a> FcsError<'a> {
    pub fn new(message: &'a str) -> (r: Self)
        ensures
            r.message == message,
    {
        Self { message }
    }

    /// The human-readable description carried by this error.
    pub fn message(&self) -> (r: &'a str)
        ensures
            r == self.message,
    {
        self.message
    }
}

/// What [`multiply_compare_zero`] returns: a signed control value scaled by
/// the multiplier matching its sign, with zero mapping to zero exactly.
pub open spec fn spec_multiply_compare_zero(input: int, high_multiplier: int, low_multiplier: int) -> int {
    if input > 0 {
        input * high_multiplier
    } else if input < 0 {
        input * low_multiplier
    } else {
        0
    }
}

/// The product computed by [`multiply_compare_zero`] stays in range.
pub open spec fn multiply_compare_zero_fits(input: int, high_multiplier: int, low_multiplier: int) -> bool {
    i64::MIN <= spec_multiply_compare_zero(input, high_multiplier, low_multiplier) <= i64::MAX
}

/// Scales a signed control value by the multiplier matching its sign:
/// positive values by `high_multiplier`, negative values by
/// `low_multiplier`, zero to zero exactly. This is the "multiply-or-clamp by
/// sign" rule shared by the feedforward and feedback stages.
pub fn multiply_compare_zero(input: i64, high_multiplier: i64, low_multiplier: i64) -> (r: i64)
    requires
        multiply_compare_zero_fits(input as int, high_multiplier as int, low_multiplier as int),
    ensures
        r == spec_multiply_compare_zero(input as int, high_multiplier as int, low_multiplier as int),
{
    if input > 0 {
        input * high_multiplier
    } else if input < 0 {
        input * low_multiplier
    } else {
        0
    }
}

/// The elementwise sum of two per-axis acceleration vectors, widened to
/// mathematical integers.
pub open spec fn spec_sum_d3_control_axes(
    a: ControlAxis<Dimension3<i64>>,
    b: ControlAxis<Dimension3<i64>>,
) -> ControlAxis<Dimension3<int>> {
    ControlAxis {
        linear: Dimension3 {
            x: a.linear.x + b.linear.x,
            y: a.linear.y + b.linear.y,
            z: a.linear.z + b.linear.z,
        },
        rotational: Dimension3 {
            x: a.rotational.x + b.rotational.x,
            y: a.rotational.y + b.rotational.y,
            z: a.rotational.z + b.rotational.z,
        },
    }
}

/// Every component of the elementwise sum stays in range.
pub open spec fn sum_d3_control_axes_fits(
    a: ControlAxis<Dimension3<i64>>,
    b: ControlAxis<Dimension3<i64>>,
) -> bool {
    &&& i64::MIN <= a.linear.x + b.linear.x <= i64::MAX
    &&& i64::MIN <= a.linear.y + b.linear.y <= i64::MAX
    &&& i64::MIN <= a.linear.z + b.linear.z <= i64::MAX
    &&& i64::MIN <= a.rotational.x + b.rotational.x <= i64::MAX
    &&& i64::MIN <= a.rotational.y + b.rotational.y <= i64::MAX
    &&& i64::MIN <= a.rotational.z + b.rotational.z <= i64::MAX
}

/// The combiner stage: the elementwise sum of the feedforward and feedback
/// desired-acceleration vectors. No clamping happens here; bounding the
/// result is the explicit job of the safety stage, so the unclamped
/// control-authority intent remains inspectable.
pub fn sum_d3_control_axes(
    a: &ControlAxis<Dimension3<i64>>,
    b: &ControlAxis<Dimension3<i64>>,
) -> (r: ControlAxis<Dimension3<i64>>)
    requires
        sum_d3_control_axes_fits(*a, *b),
    ensures
        r.linear.x == spec_sum_d3_control_axes(*a, *b).linear.x,
        r.linear.y == spec_sum_d3_control_axes(*a, *b).linear.y,
        r.linear.z == spec_sum_d3_control_axes(*a, *b).linear.z,
        r.rotational.x == spec_sum_d3_control_axes(*a, *b).rotational.x,
        r.rotational.y == spec_sum_d3_control_axes(*a, *b).rotational.y,
        r.rotational.z == spec_sum_d3_control_axes(*a, *b).rotational.z,
{
    ControlAxis {
        linear: Dimension3 {
            x: a.linear.x + b.linear.x,
            y: a.linear.y + b.linear.y,
            z: a.linear.z + b.linear.z,
        },
        rotational: Dimension3 {
            x: a.rotational.x + b.rotational.x,
            y: a.rotational.y + b.rotational.y,
            z: a.rotational.z + b.rotational.z,
        },
    }
}

/// The combiner treats an all-zero contribution as an identity: summing a
/// vector with zero feedback returns that vector, and symmetrically for zero
/// feedforward. The combiner is also commutative.
pub proof fn lemma_sum_d3_control_axes_identity(
    a: ControlAxis<Dimension3<i64>>,
    zero: ControlAxis<Dimension3<i64>>,
)
    requires
        zero.linear.x == 0,
        zero.linear.y == 0,
        zero.linear.z == 0,
        zero.rotational.x == 0,
        zero.rotational.y == 0,
        zero.rotational.z == 0,
    ensures
        spec_sum_d3_control_axes(a, zero).linear.x == a.linear.x,
        spec_sum_d3_control_axes(a, zero).linear.y == a.linear.y,
        spec_sum_d3_control_axes(a, zero).linear.z == a.linear.z,
        spec_sum_d3_control_axes(a, zero).rotational.x == a.rotational.x,
        spec_sum_d3_control_axes(a, zero).rotational.y == a.rotational.y,
        spec_sum_d3_control_axes(a, zero).rotational.z == a.rotational.z,
        spec_sum_d3_control_axes(zero, a).linear.x == a.linear.x,
        spec_sum_d3_control_axes(zero, a).linear.y == a.linear.y,
        spec_sum_d3_control_axes(zero, a).linear.z == a.linear.z,
        spec_sum_d3_control_axes(zero, a).rotational.x == a.rotational.x,
        spec_sum_d3_control_axes(zero, a).rotational.y == a.rotational.y,
        spec_sum_d3_control_axes(zero, a).rotational.z == a.rotational.z,
        spec_sum_d3_control_axes(a, zero) == spec_sum_d3_control_axes(zero, a),
{
}

} // verus!
