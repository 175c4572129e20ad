//! The propulsion allocator. Its budget half derives, from a thruster
//! layout, an asymmetric per-axis, per-sign budget of available thrust and
//! acceleration; its realizer half converts a final acceleration command
//! into a force requirement.
//!
//! The negative component of every budget is stored as a positive
//! magnitude: a value's membership in the negative component already
//! acknowledges its negativity, and consumers negate it explicitly when
//! they use it as a lower bound. The budget is recomputed only when the
//! thruster layout changes, never on the per-tick hot path.

use vstd::prelude::*;

verus! {

use crate::FcsError;
use crate::components::{contribution_grid_wf, AxisContribution, ControlAxis};
use crate::dimension3::{Dimension3, Vector3};
use crate::math::spec_abs;

/// The size class of a thruster or of the largest thruster a mount point
/// accepts, ordered small < medium < large.
#[derive(Clone, Copy, Debug, PartialEq, Eq, Structural, PartialOrd)]
pub enum ThrusterSize {
    Small,
    Medium,
    Large,
}

/// The rank of a size class in the small < medium < large order.
pub open spec fn spec_size_rank(size: ThrusterSize) -> int {
    match size {
        ThrusterSize::Small => 0,
        ThrusterSize::Medium => 1,
        ThrusterSize::Large => 2,
    }
}

/// Whether `size` is strictly larger than `limit` in the
/// small < medium < large order.
fn size_exceeds(size: ThrusterSize, limit: ThrusterSize) -> (r: bool)
    ensures
        r == (spec_size_rank(size) > spec_size_rank(limit)),
{
    let size_rank: u8 = match size {
        ThrusterSize::Small => 0,
        ThrusterSize::Medium => 1,
        ThrusterSize::Large => 2,
    };
    let limit_rank: u8 = match limit {
        ThrusterSize::Small => 0,
        ThrusterSize::Medium => 1,
        ThrusterSize::Large => 2,
    };
    size_rank > limit_rank
}

/// A thruster: a maximum-thrust magnitude and a size class. The magnitude
/// is always a non-negative value, disambiguating it from the axis
/// direction it contributes to, which is determined by the mount point.
#[derive(Clone, Copy)]
pub struct Thruster {
    pub max_thrust: i64,
    pub size: ThrusterSize,
}

impl Thruster {
    /// The maximum thrust is a non-negative magnitude.
    pub open spec fn wf(self) -> bool {
        self.max_thrust >= 0
    }

    pub fn new(max_thrust: i64, size: ThrusterSize) -> (r: Self)
        requires
            max_thrust >= 0,
        ensures
            r.max_thrust == max_thrust,
            r.size == size,
            r.wf(),
    {
        Self { max_thrust, size }
    }

    pub fn max_thrust(&self) -> (r: i64)
        ensures
            r == self.max_thrust,
    {
        self.max_thrust
    }

    pub fn size(&self) -> (r: ThrusterSize)
        ensures
            r == self.size,
    {
        self.size
    }
}

/// A slot in the thruster layout: an optionally attached thruster (an
/// unequipped slot is valid), the direction the slot contributes thrust to,
/// the largest thruster size the slot accepts, and the slot's location
/// relative to the vehicle's center of mass.
#[derive(Clone, Copy)]
pub struct ThrusterMountPoint {
    pub attached_thruster: Option<Thruster>,
    pub thrust_direction: Vector3,
    pub max_thruster_size: ThrusterSize,
    pub mount_location: Dimension3<i64>,
}

impl ThrusterMountPoint {
    /// Any attached thruster is well formed and the direction components
    /// can be negated without leaving the representable range.
    pub open spec fn wf(self) -> bool {
        &&& (self.attached_thruster matches Some(t) ==> t.wf())
        &&& self.thrust_direction.x > i64::MIN
        &&& self.thrust_direction.y > i64::MIN
        &&& self.thrust_direction.z > i64::MIN
    }

    pub fn new(
        attached_thruster: Option<Thruster>,
        thrust_direction: Vector3,
        max_thruster_size: ThrusterSize,
        mount_location: Dimension3<i64>,
    ) -> (r: Self)
        requires
            (attached_thruster matches Some(t) ==> t.wf()),
            thrust_direction.x > i64::MIN,
            thrust_direction.y > i64::MIN,
            thrust_direction.z > i64::MIN,
        ensures
            r.attached_thruster == attached_thruster,
            r.thrust_direction == thrust_direction,
            r.max_thruster_size == max_thruster_size,
            r.mount_location == mount_location,
            r.wf(),
    {
        Self { attached_thruster, thrust_direction, max_thruster_size, mount_location }
    }

    pub fn attached_thruster(&self) -> (r: &Option<Thruster>)
        ensures
            *r == self.attached_thruster,
    {
        &self.attached_thruster
    }

    /// Attaches `thruster` to this mount point, replacing any prior
    /// attachment. A thruster whose size class exceeds the slot's maximum
    /// is refused with an error, and the mount point is left entirely
    /// unchanged, prior attachment included.
    pub fn change_thruster(&mut self, thruster: Thruster) -> (r: Result<(), FcsError<'static>>)
        ensures
            spec_size_rank(thruster.size) > spec_size_rank(old(self).max_thruster_size) ==> {
                &&& r is Err
                &&& *final(self) == *old(self)
            },
            spec_size_rank(thruster.size) <= spec_size_rank(old(self).max_thruster_size) ==> {
                &&& r is Ok
                &&& final(self).attached_thruster == Some(thruster)
                &&& final(self).thrust_direction == old(self).thrust_direction
                &&& final(self).max_thruster_size == old(self).max_thruster_size
                &&& final(self).mount_location == old(self).mount_location
            },
    {
        if size_exceeds(thruster.size(), self.max_thruster_size) {
            return Err(FcsError::new("Tried to attach a thruster that is too large for mount point."));
        }
        self.attached_thruster = Some(thruster);

        Ok(())
    }

    pub fn thrust_direction(&self) -> (r: Vector3)
        ensures
            r == self.thrust_direction,
    {
        self.thrust_direction
    }
}

/// The component of a thrust direction along one linear axis, the axes
/// indexed x, y, z as 0, 1, 2.
pub open spec fn spec_direction_component(direction: Vector3, axis: int) -> int {
    if axis == 0 {
        direction.x as int
    } else if axis == 1 {
        direction.y as int
    } else {
        direction.z as int
    }
}

/// The thrust one mount point contributes to one side of one linear axis:
/// the magnitude of its direction component along that axis times the
/// attached thruster's maximum thrust, counted on the side selected by the
/// component's sign; an unequipped slot contributes nothing.
pub open spec fn spec_mount_contribution(
    point: ThrusterMountPoint,
    axis: int,
    positive: bool,
) -> int {
    match point.attached_thruster {
        Some(thruster) => {
            let component = spec_direction_component(point.thrust_direction, axis);
            if positive == (component >= 0) {
                spec_abs(component) * thruster.max_thrust
            } else {
                0
            }
        },
        None => 0,
    }
}

/// The total thrust a layout offers on one side of one linear axis: the sum
/// of every mount point's contribution to that side. A single thruster may
/// contribute to more than one direction; contributions are summed per
/// direction independently.
pub open spec fn spec_available_thrust_sum(
    points: Seq<ThrusterMountPoint>,
    axis: int,
    positive: bool,
) -> int
    decreases points.len(),
{
    if points.len() == 0 {
        0
    } else {
        spec_available_thrust_sum(points.drop_last(), axis, positive) + spec_mount_contribution(
            points.last(),
            axis,
            positive,
        )
    }
}

/// Every mount point of a layout is well formed.
pub open spec fn layout_wf(points: Seq<ThrusterMountPoint>) -> bool {
    forall|i: int| 0 <= i < points.len() ==> #[trigger] points[i].wf()
}

/// Each of the six linear thrust sums of a layout stays in range.
pub open spec fn layout_thrust_fits(points: Seq<ThrusterMountPoint>) -> bool {
    &&& spec_available_thrust_sum(points, 0, true) <= i64::MAX
    &&& spec_available_thrust_sum(points, 0, false) <= i64::MAX
    &&& spec_available_thrust_sum(points, 1, true) <= i64::MAX
    &&& spec_available_thrust_sum(points, 1, false) <= i64::MAX
    &&& spec_available_thrust_sum(points, 2, true) <= i64::MAX
    &&& spec_available_thrust_sum(points, 2, false) <= i64::MAX
}

/// A well-formed mount point contributes a non-negative amount of thrust.
proof fn lemma_mount_contribution_nonneg(point: ThrusterMountPoint, axis: int, positive: bool)
    requires
        point.wf(),
    ensures
        spec_mount_contribution(point, axis, positive) >= 0,
{
    match point.attached_thruster {
        Some(thruster) => {
            let component = spec_direction_component(point.thrust_direction, axis);
            vstd::arithmetic::mul::lemma_mul_nonnegative(spec_abs(component), thruster.max_thrust as int);
        },
        None => {},
    }
}

/// Extending a prefix of a layout by one mount point adds exactly that
/// point's contribution to the running sum.
proof fn lemma_thrust_sum_take_succ(
    points: Seq<ThrusterMountPoint>,
    i: int,
    axis: int,
    positive: bool,
)
    requires
        0 <= i < points.len(),
    ensures
        spec_available_thrust_sum(points.take(i + 1), axis, positive)
            == spec_available_thrust_sum(points.take(i), axis, positive)
            + spec_mount_contribution(points[i], axis, positive),
{
    assert(points.take(i + 1).drop_last() =~= points.take(i));
    assert(points.take(i + 1).last() == points[i]);
}

/// The total thrust sum of a well-formed layout is non-negative.
proof fn lemma_thrust_sum_nonneg(points: Seq<ThrusterMountPoint>, axis: int, positive: bool)
    requires
        layout_wf(points),
    ensures
        spec_available_thrust_sum(points, axis, positive) >= 0,
    decreases points.len(),
{
    if points.len() > 0 {
        assert forall|j: int|
            0 <= j < points.drop_last().len() implies #[trigger] points.drop_last()[j].wf() by {
            assert(points.drop_last()[j] == points[j]);
            assert(points[j].wf());
        }
        lemma_thrust_sum_nonneg(points.drop_last(), axis, positive);
        lemma_mount_contribution_nonneg(points.last(), axis, positive);
    }
}

/// The running sum over a prefix of a well-formed layout is non-negative
/// and never exceeds the sum over the whole layout.
proof fn lemma_thrust_sum_prefix_bound(
    points: Seq<ThrusterMountPoint>,
    i: int,
    axis: int,
    positive: bool,
)
    requires
        layout_wf(points),
        0 <= i <= points.len(),
    ensures
        0 <= spec_available_thrust_sum(points.take(i), axis, positive)
            <= spec_available_thrust_sum(points, axis, positive),
    decreases points.len() - i,
{
    assert forall|j: int|
        0 <= j < points.take(i).len() implies #[trigger] points.take(i)[j].wf() by {
        assert(points.take(i)[j] == points[j]);
        assert(points[j].wf());
    }
    lemma_thrust_sum_nonneg(points.take(i), axis, positive);
    if i == points.len() {
        assert(points.take(i) =~= points);
    } else {
        lemma_thrust_sum_take_succ(points, i, axis, positive);
        lemma_mount_contribution_nonneg(points[i], axis, positive);
        lemma_thrust_sum_prefix_bound(points, i + 1, axis, positive);
    }
}

/// Adds one thruster's contribution to the running thrust budget. The
/// thrust direction selects, per linear axis, which side of the axis
/// receives the product of the direction component's magnitude and the
/// thruster's maximum thrust; a component of zero counts as the positive
/// side.
fn sum_available_thrust_per_axis(
    thruster: &Thruster,
    thrust_direction: Vector3,
    available_thrust: &mut ControlAxis<Dimension3<AxisContribution>>,
)
    requires
        thruster.wf(),
        thrust_direction.x > i64::MIN,
        thrust_direction.y > i64::MIN,
        thrust_direction.z > i64::MIN,
        old(available_thrust).linear.x.wf(),
        old(available_thrust).linear.y.wf(),
        old(available_thrust).linear.z.wf(),
        thrust_direction.x >= 0 ==> old(available_thrust).linear.x.positive + spec_abs(
            thrust_direction.x as int,
        ) * thruster.max_thrust <= i64::MAX,
        thrust_direction.x < 0 ==> old(available_thrust).linear.x.negative + spec_abs(
            thrust_direction.x as int,
        ) * thruster.max_thrust <= i64::MAX,
        thrust_direction.y >= 0 ==> old(available_thrust).linear.y.positive + spec_abs(
            thrust_direction.y as int,
        ) * thruster.max_thrust <= i64::MAX,
        thrust_direction.y < 0 ==> old(available_thrust).linear.y.negative + spec_abs(
            thrust_direction.y as int,
        ) * thruster.max_thrust <= i64::MAX,
        thrust_direction.z >= 0 ==> old(available_thrust).linear.z.positive + spec_abs(
            thrust_direction.z as int,
        ) * thruster.max_thrust <= i64::MAX,
        thrust_direction.z < 0 ==> old(available_thrust).linear.z.negative + spec_abs(
            thrust_direction.z as int,
        ) * thruster.max_thrust <= i64::MAX,
    ensures
        thrust_direction.x >= 0 ==> {
            &&& final(available_thrust).linear.x.positive == old(available_thrust).linear.x.positive
                + spec_abs(thrust_direction.x as int) * thruster.max_thrust
            &&& final(available_thrust).linear.x.negative == old(available_thrust).linear.x.negative
        },
        thrust_direction.x < 0 ==> {
            &&& final(available_thrust).linear.x.negative == old(available_thrust).linear.x.negative
                + spec_abs(thrust_direction.x as int) * thruster.max_thrust
            &&& final(available_thrust).linear.x.positive == old(available_thrust).linear.x.positive
        },
        thrust_direction.y >= 0 ==> {
            &&& final(available_thrust).linear.y.positive == old(available_thrust).linear.y.positive
                + spec_abs(thrust_direction.y as int) * thruster.max_thrust
            &&& final(available_thrust).linear.y.negative == old(available_thrust).linear.y.negative
        },
        thrust_direction.y < 0 ==> {
            &&& final(available_thrust).linear.y.negative == old(available_thrust).linear.y.negative
                + spec_abs(thrust_direction.y as int) * thruster.max_thrust
            &&& final(available_thrust).linear.y.positive == old(available_thrust).linear.y.positive
        },
        thrust_direction.z >= 0 ==> {
            &&& final(available_thrust).linear.z.positive == old(available_thrust).linear.z.positive
                + spec_abs(thrust_direction.z as int) * thruster.max_thrust
            &&& final(available_thrust).linear.z.negative == old(available_thrust).linear.z.negative
        },
        thrust_direction.z < 0 ==> {
            &&& final(available_thrust).linear.z.negative == old(available_thrust).linear.z.negative
                + spec_abs(thrust_direction.z as int) * thruster.max_thrust
            &&& final(available_thrust).linear.z.positive == old(available_thrust).linear.z.positive
        },
        final(available_thrust).linear.x.wf(),
        final(available_thrust).linear.y.wf(),
        final(available_thrust).linear.z.wf(),
        final(available_thrust).rotational == old(available_thrust).rotational,
{
    proof {
        vstd::arithmetic::mul::lemma_mul_nonnegative(
            spec_abs(thrust_direction.x as int),
            thruster.max_thrust as int,
        );
        vstd::arithmetic::mul::lemma_mul_nonnegative(
            spec_abs(thrust_direction.y as int),
            thruster.max_thrust as int,
        );
        vstd::arithmetic::mul::lemma_mul_nonnegative(
            spec_abs(thrust_direction.z as int),
            thruster.max_thrust as int,
        );
    }
    let abs_x = if thrust_direction.x() >= 0 {
        thrust_direction.x()
    } else {
        -(thrust_direction.x())
    };
    if thrust_direction.x() >= 0 {
        let linear_sum = available_thrust.linear.x.positive() + abs_x * thruster.max_thrust();
        available_thrust.linear.x.set_positive(linear_sum);
    } else {
        let linear_sum = available_thrust.linear.x.negative() + abs_x * thruster.max_thrust();
        available_thrust.linear.x.set_negative(linear_sum);
    }
    let abs_y = if thrust_direction.y() >= 0 {
        thrust_direction.y()
    } else {
        -(thrust_direction.y())
    };
    if thrust_direction.y() >= 0 {
        let linear_sum = available_thrust.linear.y.positive() + abs_y * thruster.max_thrust();
        available_thrust.linear.y.set_positive(linear_sum);
    } else {
        let linear_sum = available_thrust.linear.y.negative() + abs_y * thruster.max_thrust();
        available_thrust.linear.y.set_negative(linear_sum);
    }
    let abs_z = if thrust_direction.z() >= 0 {
        thrust_direction.z()
    } else {
        -(thrust_direction.z())
    };
    if thrust_direction.z() >= 0 {
        let linear_sum = available_thrust.linear.z.positive() + abs_z * thruster.max_thrust();
        available_thrust.linear.z.set_positive(linear_sum);
    } else {
        let linear_sum = available_thrust.linear.z.negative() + abs_z * thruster.max_thrust();
        available_thrust.linear.z.set_negative(linear_sum);
    }
}

/// Calculates the total available thrust for each of the six linear axial
/// directions from a thruster layout. Intended to be called on
/// instantiation and whenever thrusters are added or replaced, not on every
/// tick: staleness after an unreported layout mutation is a correctness
/// bug, not a performance matter. Rotational budgets are left at zero; see
/// [`calculate_available_acceleration`] for the rotational placeholder.
pub fn calculate_available_thrust(
    thruster_mount_points: &[ThrusterMountPoint],
) -> (r: ControlAxis<Dimension3<AxisContribution>>)
    requires
        layout_wf(thruster_mount_points@),
        layout_thrust_fits(thruster_mount_points@),
    ensures
        r.linear.x.positive == spec_available_thrust_sum(thruster_mount_points@, 0, true),
        r.linear.x.negative == spec_available_thrust_sum(thruster_mount_points@, 0, false),
        r.linear.y.positive == spec_available_thrust_sum(thruster_mount_points@, 1, true),
        r.linear.y.negative == spec_available_thrust_sum(thruster_mount_points@, 1, false),
        r.linear.z.positive == spec_available_thrust_sum(thruster_mount_points@, 2, true),
        r.linear.z.negative == spec_available_thrust_sum(thruster_mount_points@, 2, false),
        r.rotational.x.positive == 0,
        r.rotational.x.negative == 0,
        r.rotational.y.positive == 0,
        r.rotational.y.negative == 0,
        r.rotational.z.positive == 0,
        r.rotational.z.negative == 0,
        contribution_grid_wf(r),
{
    let ghost points = thruster_mount_points@;
    let mut available_thrust = ControlAxis::new(
        Dimension3::default(AxisContribution::new(0, 0)),
        Dimension3::default(AxisContribution::new(0, 0)),
    );

    proof {
        assert(points.take(0) =~= Seq::<ThrusterMountPoint>::empty());
    }

    let mut idx: usize = 0;
    while idx < thruster_mount_points.len()
        invariant
            idx <= points.len(),
            thruster_mount_points@ == points,
            layout_wf(points),
            layout_thrust_fits(points),
            available_thrust.linear.x.positive == spec_available_thrust_sum(
                points.take(idx as int),
                0,
                true,
            ),
            available_thrust.linear.x.negative == spec_available_thrust_sum(
                points.take(idx as int),
                0,
                false,
            ),
            available_thrust.linear.y.positive == spec_available_thrust_sum(
                points.take(idx as int),
                1,
                true,
            ),
            available_thrust.linear.y.negative == spec_available_thrust_sum(
                points.take(idx as int),
                1,
                false,
            ),
            available_thrust.linear.z.positive == spec_available_thrust_sum(
                points.take(idx as int),
                2,
                true,
            ),
            available_thrust.linear.z.negative == spec_available_thrust_sum(
                points.take(idx as int),
                2,
                false,
            ),
            available_thrust.linear.x.wf(),
            available_thrust.linear.y.wf(),
            available_thrust.linear.z.wf(),
            available_thrust.rotational.x.positive == 0,
            available_thrust.rotational.x.negative == 0,
            available_thrust.rotational.y.positive == 0,
            available_thrust.rotational.y.negative == 0,
            available_thrust.rotational.z.positive == 0,
            available_thrust.rotational.z.negative == 0,
        decreases points.len() - idx,
    {
        proof {
            lemma_thrust_sum_take_succ(points, idx as int, 0, true);
            lemma_thrust_sum_take_succ(points, idx as int, 0, false);
            lemma_thrust_sum_take_succ(points, idx as int, 1, true);
            lemma_thrust_sum_take_succ(points, idx as int, 1, false);
            lemma_thrust_sum_take_succ(points, idx as int, 2, true);
            lemma_thrust_sum_take_succ(points, idx as int, 2, false);
            lemma_thrust_sum_prefix_bound(points, idx as int + 1, 0, true);
            lemma_thrust_sum_prefix_bound(points, idx as int + 1, 0, false);
            lemma_thrust_sum_prefix_bound(points, idx as int + 1, 1, true);
            lemma_thrust_sum_prefix_bound(points, idx as int + 1, 1, false);
            lemma_thrust_sum_prefix_bound(points, idx as int + 1, 2, true);
            lemma_thrust_sum_prefix_bound(points, idx as int + 1, 2, false);
        }
        let thruster_mount_point = &thruster_mount_points[idx];
        proof {
            assert(points[idx as int].wf());
        }
        match thruster_mount_point.attached_thruster() {
            Some(thruster) => {
                proof {
                    assert(points[idx as int].attached_thruster == Some(*thruster));
                }
                sum_available_thrust_per_axis(
                    thruster,
                    thruster_mount_point.thrust_direction(),
                    &mut available_thrust,
                );
            },
            None => {},
        }
        idx = idx + 1;
    }
    proof {
        assert(points.take(points.len() as int) =~= points);
    }

    available_thrust
}

/// The rotational acceleration made available by a rotational thrust
/// budget. A faithful derivation needs a moment-of-inertia model
/// (torque = force x lever-arm distance); none is supplied, so this is a
/// documented placeholder identity mapping, not a physical formula.
fn calculate_angular_acceleration(some_input: i64) -> (r: i64)
    ensures
        r == some_input,
{
    some_input
}

/// Derives the available acceleration budget from the available thrust
/// budget and the vehicle mass: thrust divided by mass per linear
/// component. The rotational x component passes through the placeholder
/// identity of [`calculate_angular_acceleration`]; the remaining rotational
/// components divide by mass as the linear ones do.
pub fn calculate_available_acceleration(
    available_thrust: &ControlAxis<Dimension3<AxisContribution>>,
    mass: i64,
) -> (r: ControlAxis<Dimension3<AxisContribution>>)
    requires
        mass > 0,
        contribution_grid_wf(*available_thrust),
    ensures
        r.linear.x.positive == available_thrust.linear.x.positive as int / mass as int,
        r.linear.x.negative == available_thrust.linear.x.negative as int / mass as int,
        r.linear.y.positive == available_thrust.linear.y.positive as int / mass as int,
        r.linear.y.negative == available_thrust.linear.y.negative as int / mass as int,
        r.linear.z.positive == available_thrust.linear.z.positive as int / mass as int,
        r.linear.z.negative == available_thrust.linear.z.negative as int / mass as int,
        r.rotational.x.positive == available_thrust.rotational.x.positive,
        r.rotational.x.negative == available_thrust.rotational.x.negative,
        r.rotational.y.positive == available_thrust.rotational.y.positive as int / mass as int,
        r.rotational.y.negative == available_thrust.rotational.y.negative as int / mass as int,
        r.rotational.z.positive == available_thrust.rotational.z.positive as int / mass as int,
        r.rotational.z.negative == available_thrust.rotational.z.negative as int / mass as int,
        contribution_grid_wf(r),
{
    proof {
        vstd::arithmetic::div_mod::lemma_div_pos_is_pos(
            available_thrust.linear.x.positive as int,
            mass as int,
        );
        vstd::arithmetic::div_mod::lemma_div_pos_is_pos(
            available_thrust.linear.x.negative as int,
            mass as int,
        );
        vstd::arithmetic::div_mod::lemma_div_pos_is_pos(
            available_thrust.linear.y.positive as int,
            mass as int,
        );
        vstd::arithmetic::div_mod::lemma_div_pos_is_pos(
            available_thrust.linear.y.negative as int,
            mass as int,
        );
        vstd::arithmetic::div_mod::lemma_div_pos_is_pos(
            available_thrust.linear.z.positive as int,
            mass as int,
        );
        vstd::arithmetic::div_mod::lemma_div_pos_is_pos(
            available_thrust.linear.z.negative as int,
            mass as int,
        );
        vstd::arithmetic::div_mod::lemma_div_pos_is_pos(
            available_thrust.rotational.y.positive as int,
            mass as int,
        );
        vstd::arithmetic::div_mod::lemma_div_pos_is_pos(
            available_thrust.rotational.y.negative as int,
            mass as int,
        );
        vstd::arithmetic::div_mod::lemma_div_pos_is_pos(
            available_thrust.rotational.z.positive as int,
            mass as int,
        );
        vstd::arithmetic::div_mod::lemma_div_pos_is_pos(
            available_thrust.rotational.z.negative as int,
            mass as int,
        );
    }
    ControlAxis::new(
        Dimension3::new(
            AxisContribution::new(
                available_thrust.linear.x.positive() / mass,
                available_thrust.linear.x.negative() / mass,
            ),
            AxisContribution::new(
                available_thrust.linear.y.positive() / mass,
                available_thrust.linear.y.negative() / mass,
            ),
            AxisContribution::new(
                available_thrust.linear.z.positive() / mass,
                available_thrust.linear.z.negative() / mass,
            ),
        ),
        Dimension3::new(
            AxisContribution::new(
                calculate_angular_acceleration(available_thrust.rotational.x.positive()),
                calculate_angular_acceleration(available_thrust.rotational.x.negative()),
            ),
            AxisContribution::new(
                available_thrust.rotational.y.positive() / mass,
                available_thrust.rotational.y.negative() / mass,
            ),
            AxisContribution::new(
                available_thrust.rotational.z.positive() / mass,
                available_thrust.rotational.z.negative() / mass,
            ),
        ),
    )
}

/// Every product of one realizer evaluation stays in range.
pub open spec fn thruster_output_fits(
    desired_acceleration: ControlAxis<Dimension3<i64>>,
    mass: int,
) -> bool {
    &&& i64::MIN <= desired_acceleration.linear.x * mass <= i64::MAX
    &&& i64::MIN <= desired_acceleration.linear.y * mass <= i64::MAX
    &&& i64::MIN <= desired_acceleration.linear.z * mass <= i64::MAX
    &&& i64::MIN <= desired_acceleration.rotational.x * mass <= i64::MAX
    &&& i64::MIN <= desired_acceleration.rotational.y * mass <= i64::MAX
    &&& i64::MIN <= desired_acceleration.rotational.z * mass <= i64::MAX
}

/// The propulsion realizer: converts a final acceleration command into the
/// net force each axis must produce, by Newton's second law applied per
/// scalar component. The mount points are accepted for a future
/// distribution of the request over individual thrusters and are not yet
/// read.
pub fn calculate_thruster_output(
    desired_acceleration: &ControlAxis<Dimension3<i64>>,
    _thruster_mount_points: &[ThrusterMountPoint],
    mass: i64,
) -> (r: ControlAxis<Dimension3<i64>>)
    requires
        thruster_output_fits(*desired_acceleration, mass as int),
    ensures
        r.linear.x == desired_acceleration.linear.x * mass,
        r.linear.y == desired_acceleration.linear.y * mass,
        r.linear.z == desired_acceleration.linear.z * mass,
        r.rotational.x == desired_acceleration.rotational.x * mass,
        r.rotational.y == desired_acceleration.rotational.y * mass,
        r.rotational.z == desired_acceleration.rotational.z * mass,
{
    ControlAxis::new(
        Dimension3::new(
            desired_acceleration.linear.x * mass,
            desired_acceleration.linear.y * mass,
            desired_acceleration.linear.z * mass,
        ),
        Dimension3::new(
            desired_acceleration.rotational.x * mass,
            desired_acceleration.rotational.y * mass,
            desired_acceleration.rotational.z * mass,
        ),
    )
}

/// A simplified realizer that does not model the physical thruster layout:
/// it converts the three linear desired accelerations to a generalized
/// thrust requirement and leaves the rotational components at zero.
pub fn calculate_simplified_thruster_output(
    desired_acceleration: &ControlAxis<Dimension3<i64>>,
    mass: i64,
) -> (r: ControlAxis<Dimension3<i64>>)
    requires
        i64::MIN <= mass * desired_acceleration.linear.x <= i64::MAX,
        i64::MIN <= mass * desired_acceleration.linear.y <= i64::MAX,
        i64::MIN <= mass * desired_acceleration.linear.z <= i64::MAX,
    ensures
        r.linear.x == mass * desired_acceleration.linear.x,
        r.linear.y == mass * desired_acceleration.linear.y,
        r.linear.z == mass * desired_acceleration.linear.z,
        r.rotational.x == 0,
        r.rotational.y == 0,
        r.rotational.z == 0,
{
    ControlAxis::new(
        Dimension3::new(
            mass * desired_acceleration.linear.x,
            mass * desired_acceleration.linear.y,
            mass * desired_acceleration.linear.z,
        ),
        Dimension3::default(0),
    )
}

/// The realizer inverts the budget half exactly: an acceleration budget
/// derived as `thrust_budget / mass` multiplied back by the mass recovers
/// `thrust_budget`, whenever the mass divides the budget evenly. A budget
/// the mass does not divide loses its remainder to the rounding of integer
/// division and is not recovered.
pub proof fn lemma_thrust_acceleration_round_trip(thrust_budget: int, mass: int)
    requires
        mass > 0,
        thrust_budget >= 0,
        thrust_budget % mass == 0,
    ensures
        (thrust_budget / mass) * mass == thrust_budget,
{
    crate::math::lemma_div_exact_inverse(thrust_budget, mass);
}

} // verus!
