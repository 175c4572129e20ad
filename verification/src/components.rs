//! The data model shared by the pipeline stages: the linear/rotational pair,
//! the asymmetric per-sign budget, toggles, and the pilot-facing
//! configuration holders.

use vstd::prelude::*;

verus! {

use crate::dimension3::{ClampedDimension3, Dimension3, MaxDimension3, MinDimension3};
use crate::feedback_controller::Pid;

/// One quantity split by actuation kind: a *linear* value and a
/// *rotational* value of the same type.
#[derive(Clone, Copy)]
pub struct ControlAxis<T> {
    pub linear: T,
    pub rotational: T,
}

impl<T: Copy> ControlAxis<T> {
    pub fn new(linear: T, rotational: T) -> (r: Self)
        ensures
            r.linear == linear,
            r.rotational == rotational,
    {
        Self { linear, rotational }
    }

    pub fn linear(&self) -> (r: &T)
        ensures
            *r == self.linear,
    {
        &self.linear
    }

    pub fn linear_mut(&mut self) -> (r: &mut T)
        ensures
            *r == old(self).linear,
            *final(self) == (ControlAxis { linear: *final(r), rotational: old(self).rotational }),
    {
        &mut self.linear
    }

    pub fn rotational(&self) -> (r: &T)
        ensures
            *r == self.rotational,
    {
        &self.rotational
    }

    pub fn rotational_mut(&mut self) -> (r: &mut T)
        ensures
            *r == old(self).rotational,
            *final(self) == (ControlAxis { linear: old(self).linear, rotational: *final(r) }),
    {
        &mut self.rotational
    }
}

/// An asymmetric per-sign budget: how much of a quantity is available on the
/// positive side of an axis and how much on the negative side.
///
/// Both fields hold non-negative magnitudes; the sign of a contribution is
/// encoded by *which* field holds it, never by storing a negative number.
/// Every consumer negates the `negative` field explicitly when using it as a
/// lower bound. The constructor and the setters uphold this convention.
#[derive(Clone, Copy)]
pub struct AxisContribution {
    pub positive: i64,
    pub negative: i64,
}

impl AxisContribution {
    /// Both magnitudes are non-negative.
    pub open spec fn wf(self) -> bool {
        self.positive >= 0 && self.negative >= 0
    }

    pub fn new(positive: i64, negative: i64) -> (r: Self)
        requires
            positive >= 0,
            negative >= 0,
        ensures
            r.positive == positive,
            r.negative == negative,
            r.wf(),
    {
        Self { positive, negative }
    }

    pub fn positive(&self) -> (r: i64)
        ensures
            r == self.positive,
    {
        self.positive
    }

    pub fn negative(&self) -> (r: i64)
        ensures
            r == self.negative,
    {
        self.negative
    }

    pub fn set_positive(&mut self, value: i64)
        requires
            value >= 0,
        ensures
            final(self).positive == value,
            final(self).negative == old(self).negative,
            old(self).wf() ==> final(self).wf(),
    {
        self.positive = value;
    }

    pub fn set_negative(&mut self, value: i64)
        requires
            value >= 0,
        ensures
            final(self).negative == value,
            final(self).positive == old(self).positive,
            old(self).wf() ==> final(self).wf(),
    {
        self.negative = value;
    }
}

/// Every budget pair in a full per-axis, per-component grid holds
/// non-negative magnitudes.
pub open spec fn contribution_grid_wf(grid: ControlAxis<Dimension3<AxisContribution>>) -> bool {
    &&& grid.linear.x.wf()
    &&& grid.linear.y.wf()
    &&& grid.linear.z.wf()
    &&& grid.rotational.x.wf()
    &&& grid.rotational.y.wf()
    &&& grid.rotational.z.wf()
}

/// A boolean with explicit enable/disable/flip semantics, used for the
/// assist, autonomous-mode and g-force-safety switches.
#[derive(Clone, Copy)]
pub struct Toggle {
    pub enabled: bool,
}

impl Toggle {
    pub fn new(enabled: bool) -> (r: Self)
        ensures
            r.enabled == enabled,
    {
        Self { enabled }
    }

    pub fn enabled(&self) -> (r: bool)
        ensures
            r == self.enabled,
    {
        self.enabled
    }

    pub fn enable(&mut self)
        ensures
            final(self).enabled,
    {
        self.enabled = true;
    }

    pub fn disable(&mut self)
        ensures
            !final(self).enabled,
    {
        self.enabled = false;
    }

    pub fn toggle(&mut self)
        ensures
            final(self).enabled == !old(self).enabled,
    {
        self.enabled = !self.enabled;
    }
}

/// The flight-assist switch for the three linear axes. Assist starts
/// enabled.
#[derive(Clone, Copy)]
pub struct LinearAssist {
    pub enabled: bool,
}

impl LinearAssist {
    pub fn new() -> (r: Self)
        ensures
            r.enabled,
    {
        Self { enabled: true }
    }

    pub fn enabled(&self) -> (r: bool)
        ensures
            r == self.enabled,
    {
        self.enabled
    }

    pub fn toggle(&mut self)
        ensures
            final(self).enabled == !old(self).enabled,
    {
        self.enabled = !self.enabled;
    }
}

/// The flight-assist switch for the three rotational axes. Assist starts
/// enabled.
#[derive(Clone, Copy)]
pub struct RotationalAssist {
    pub enabled: bool,
}

impl RotationalAssist {
    pub fn new() -> (r: Self)
        ensures
            r.enabled,
    {
        Self { enabled: true }
    }

    pub fn enabled(&self) -> (r: bool)
        ensures
            r == self.enabled,
    {
        self.enabled
    }

    pub fn toggle(&mut self)
        ensures
            final(self).enabled == !old(self).enabled,
    {
        self.enabled = !self.enabled;
    }
}

/// The per-axis output of the assist stage.
#[derive(Clone, Copy)]
pub struct AssistOutput<T> {
    pub linear: Dimension3<T>,
    pub rotational: Dimension3<T>,
}

impl<T: Copy> AssistOutput<T> {
    pub fn new(zero: T) -> (r: Self)
        ensures
            r.linear.x == zero,
            r.linear.y == zero,
            r.linear.z == zero,
            r.rotational.x == zero,
            r.rotational.y == zero,
            r.rotational.z == zero,
    {
        Self {
            linear: Dimension3::new(zero, zero, zero),
            rotational: Dimension3::new(zero, zero, zero),
        }
    }

    pub fn linear(&self) -> (r: &Dimension3<T>)
        ensures
            *r == self.linear,
    {
        &self.linear
    }

    pub fn linear_mut(&mut self) -> (r: &mut Dimension3<T>)
        ensures
            *r == old(self).linear,
            *final(self) == (AssistOutput { linear: *final(r), rotational: old(self).rotational }),
    {
        &mut self.linear
    }

    pub fn rotational(&self) -> (r: &Dimension3<T>)
        ensures
            *r == self.rotational,
    {
        &self.rotational
    }

    pub fn rotational_mut(&mut self) -> (r: &mut Dimension3<T>)
        ensures
            *r == old(self).rotational,
            *final(self) == (AssistOutput { linear: old(self).linear, rotational: *final(r) }),
    {
        &mut self.rotational
    }
}

/// The g-force safety switch together with the pilot-set acceleration
/// limits. The positive limits are kept at or above a floor and the
/// negative limits at or below a ceiling by the bounded containers holding
/// them.
#[derive(Clone, Copy)]
pub struct GForceSafety {
    pub enabled: bool,
    pub linear: MinDimension3,
    pub rotational: MinDimension3,
    pub neg_linear: MaxDimension3,
    pub neg_rotational: MaxDimension3,
}

impl GForceSafety {
    /// Safety starts enabled with every limit at `zero`.
    pub fn new(zero: i64) -> (r: Self)
        ensures
            r.enabled,
            r.linear.x == zero,
            r.linear.y == zero,
            r.linear.z == zero,
            r.rotational.x == zero,
            r.rotational.y == zero,
            r.rotational.z == zero,
            r.neg_linear.x == zero,
            r.neg_linear.y == zero,
            r.neg_linear.z == zero,
            r.neg_rotational.x == zero,
            r.neg_rotational.y == zero,
            r.neg_rotational.z == zero,
    {
        Self {
            enabled: true,
            linear: MinDimension3::new(zero, zero, zero, zero),
            rotational: MinDimension3::new(zero, zero, zero, zero),
            neg_linear: MaxDimension3::new(zero, zero, zero, zero),
            neg_rotational: MaxDimension3::new(zero, zero, zero, zero),
        }
    }

    pub fn enabled(&self) -> (r: bool)
        ensures
            r == self.enabled,
    {
        self.enabled
    }

    pub fn toggle(&mut self)
        ensures
            final(self).enabled == !old(self).enabled,
            final(self).linear == old(self).linear,
            final(self).rotational == old(self).rotational,
            final(self).neg_linear == old(self).neg_linear,
            final(self).neg_rotational == old(self).neg_rotational,
    {
        self.enabled = !self.enabled;
    }

    pub fn linear(&self) -> (r: &MinDimension3)
        ensures
            *r == self.linear,
    {
        &self.linear
    }

    pub fn linear_mut(&mut self) -> (r: &mut MinDimension3)
        ensures
            *r == old(self).linear,
            *final(self) == (GForceSafety { linear: *final(r), ..*old(self) }),
    {
        &mut self.linear
    }

    pub fn rotational(&self) -> (r: &MinDimension3)
        ensures
            *r == self.rotational,
    {
        &self.rotational
    }

    pub fn rotational_mut(&mut self) -> (r: &mut MinDimension3)
        ensures
            *r == old(self).rotational,
            *final(self) == (GForceSafety { rotational: *final(r), ..*old(self) }),
    {
        &mut self.rotational
    }

    pub fn neg_linear(&self) -> (r: &MaxDimension3)
        ensures
            *r == self.neg_linear,
    {
        &self.neg_linear
    }

    pub fn neg_linear_mut(&mut self) -> (r: &mut MaxDimension3)
        ensures
            *r == old(self).neg_linear,
            *final(self) == (GForceSafety { neg_linear: *final(r), ..*old(self) }),
    {
        &mut self.neg_linear
    }

    pub fn neg_rotational(&self) -> (r: &MaxDimension3)
        ensures
            *r == self.neg_rotational,
    {
        &self.neg_rotational
    }

    pub fn neg_rotational_mut(&mut self) -> (r: &mut MaxDimension3)
        ensures
            *r == old(self).neg_rotational,
            *final(self) == (GForceSafety { neg_rotational: *final(r), ..*old(self) }),
    {
        &mut self.neg_rotational
    }
}

/// Holds the per-tick input and output of the flight control system.
#[derive(Clone, Copy)]
pub struct FlightControlSystem<T> {
    pub input: ControlAxis<Dimension3<T>>,
    pub output: ControlAxis<Dimension3<T>>,
}

impl<T: Copy> FlightControlSystem<T> {
    pub fn new(zero: T) -> (r: Self)
        ensures
            r.input.linear == (Dimension3 { x: zero, y: zero, z: zero }),
            r.input.rotational == (Dimension3 { x: zero, y: zero, z: zero }),
            r.output.linear == (Dimension3 { x: zero, y: zero, z: zero }),
            r.output.rotational == (Dimension3 { x: zero, y: zero, z: zero }),
    {
        Self {
            input: ControlAxis {
                linear: Dimension3::new(zero, zero, zero),
                rotational: Dimension3::new(zero, zero, zero),
            },
            output: ControlAxis {
                linear: Dimension3::new(zero, zero, zero),
                rotational: Dimension3::new(zero, zero, zero),
            },
        }
    }

    pub fn input(&self) -> (r: &ControlAxis<Dimension3<T>>)
        ensures
            *r == self.input,
    {
        &self.input
    }

    pub fn input_mut(&mut self) -> (r: &mut ControlAxis<Dimension3<T>>)
        ensures
            *r == old(self).input,
            *final(self) == (FlightControlSystem { input: *final(r), output: old(self).output }),
    {
        &mut self.input
    }

    pub fn output(&self) -> (r: &ControlAxis<Dimension3<T>>)
        ensures
            *r == self.output,
    {
        &self.output
    }

    pub fn output_mut(&mut self) -> (r: &mut ControlAxis<Dimension3<T>>)
        ensures
            *r == old(self).output,
            *final(self) == (FlightControlSystem { input: old(self).input, output: *final(r) }),
    {
        &mut self.output
    }
}

/// Pilot-specified maximum velocity for each control axis.
#[derive(Clone, Copy)]
pub struct MaxVelocity<T> {
    pub linear: Dimension3<T>,
    pub rotational: Dimension3<T>,
}

impl<T: Copy> MaxVelocity<T> {
    pub fn new(zero: T) -> (r: Self)
        ensures
            r.linear == (Dimension3 { x: zero, y: zero, z: zero }),
            r.rotational == (Dimension3 { x: zero, y: zero, z: zero }),
    {
        Self {
            linear: Dimension3::new(zero, zero, zero),
            rotational: Dimension3::new(zero, zero, zero),
        }
    }

    pub fn linear(&self) -> (r: &Dimension3<T>)
        ensures
            *r == self.linear,
    {
        &self.linear
    }

    pub fn linear_mut(&mut self) -> (r: &mut Dimension3<T>)
        ensures
            *r == old(self).linear,
            *final(self) == (MaxVelocity { linear: *final(r), rotational: old(self).rotational }),
    {
        &mut self.linear
    }

    pub fn rotational(&self) -> (r: &Dimension3<T>)
        ensures
            *r == self.rotational,
    {
        &self.rotational
    }

    pub fn rotational_mut(&mut self) -> (r: &mut Dimension3<T>)
        ensures
            *r == old(self).rotational,
            *final(self) == (MaxVelocity { linear: old(self).linear, rotational: *final(r) }),
    {
        &mut self.rotational
    }
}

/// A pilot-set share of the available acceleration actually used, kept
/// inside `[zero, one]` per component. A low proportion with a high maximum
/// velocity lets a craft slowly reach a high velocity; a high proportion
/// with a low maximum velocity lets it quickly reach a low one.
#[derive(Clone, Copy)]
pub struct OutputProportion {
    pub linear: ClampedDimension3,
    pub rotational: ClampedDimension3,
}

impl OutputProportion {
    pub fn new(one: i64, zero: i64) -> (r: Self)
        requires
            zero <= one,
        ensures
            r.linear.min == zero,
            r.linear.max == one,
            r.rotational.min == zero,
            r.rotational.max == one,
            r.linear.x == zero,
            r.linear.y == zero,
            r.linear.z == zero,
            r.rotational.x == zero,
            r.rotational.y == zero,
            r.rotational.z == zero,
            r.linear.wf(),
            r.rotational.wf(),
    {
        Self {
            linear: ClampedDimension3::new(zero, zero, zero, one, zero),
            rotational: ClampedDimension3::new(zero, zero, zero, one, zero),
        }
    }

    pub fn linear(&self) -> (r: &ClampedDimension3)
        ensures
            *r == self.linear,
    {
        &self.linear
    }

    pub fn linear_mut(&mut self) -> (r: &mut ClampedDimension3)
        ensures
            *r == old(self).linear,
            *final(self) == (OutputProportion { linear: *final(r), rotational: old(self).rotational }),
    {
        &mut self.linear
    }

    pub fn rotational(&self) -> (r: &ClampedDimension3)
        ensures
            *r == self.rotational,
    {
        &self.rotational
    }

    pub fn rotational_mut(&mut self) -> (r: &mut ClampedDimension3)
        ensures
            *r == old(self).rotational,
            *final(self) == (OutputProportion { linear: old(self).linear, rotational: *final(r) }),
    {
        &mut self.rotational
    }
}

/// One PID controller per control axis: six in all, each exclusively owning
/// its integral and previous-error memory.
pub struct PID3d {
    pub linear: Dimension3<Pid>,
    pub rotational: Dimension3<Pid>,
}

impl PID3d {
    /// Six fresh controllers, each with all gains set to `zero_value` and no
    /// accumulated state.
    pub fn new(zero_value: i64) -> (r: Self)
        ensures
            r.linear.x == Pid::spec_new(zero_value, zero_value, zero_value),
            r.linear.y == Pid::spec_new(zero_value, zero_value, zero_value),
            r.linear.z == Pid::spec_new(zero_value, zero_value, zero_value),
            r.rotational.x == Pid::spec_new(zero_value, zero_value, zero_value),
            r.rotational.y == Pid::spec_new(zero_value, zero_value, zero_value),
            r.rotational.z == Pid::spec_new(zero_value, zero_value, zero_value),
    {
        Self {
            linear: Dimension3::new(
                Pid::new(zero_value, zero_value, zero_value),
                Pid::new(zero_value, zero_value, zero_value),
                Pid::new(zero_value, zero_value, zero_value),
            ),
            rotational: Dimension3::new(
                Pid::new(zero_value, zero_value, zero_value),
                Pid::new(zero_value, zero_value, zero_value),
                Pid::new(zero_value, zero_value, zero_value),
            ),
        }
    }

    pub fn linear(&self) -> (r: &Dimension3<Pid>)
        ensures
            *r == self.linear,
    {
        &self.linear
    }

    pub fn linear_mut(&mut self) -> (r: &mut Dimension3<Pid>)
        ensures
            *r == old(self).linear,
            *final(self) == (PID3d { linear: *final(r), rotational: old(self).rotational }),
    {
        &mut self.linear
    }

    pub fn rotational(&self) -> (r: &Dimension3<Pid>)
        ensures
            *r == self.rotational,
    {
        &self.rotational
    }

    pub fn rotational_mut(&mut self) -> (r: &mut Dimension3<Pid>)
        ensures
            *r == old(self).rotational,
            *final(self) == (PID3d { linear: old(self).linear, rotational: *final(r) }),
    {
        &mut self.rotational
    }
}

} // verus!
