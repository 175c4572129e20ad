//! The feedback stage: six independent PID loops trim the residual error
//! between a target state and the measured state, and each correction is
//! scaled by the capability budget of its axis through the
//! multiply-or-clamp-by-sign rule.

use vstd::prelude::*;

verus! {

use crate::components::{AxisContribution, ControlAxis};
use crate::dimension3::Dimension3;
use crate::math::div_trunc;
use crate::{multiply_compare_zero, multiply_compare_zero_fits, spec_multiply_compare_zero};

/// One discrete PID controller. It owns its accumulated integral and its
/// previous-error memory; the output is absent until the first evaluation,
/// and callers must substitute a neutral zero for an absent output. Gains
/// are caller-supplied and not validated: an unstable gain set produces
/// divergent output, which is a configuration error of the caller, not a
/// recoverable runtime fault.
#[derive(Clone, Copy)]
pub struct Pid {
    pub kp: i64,
    pub ki: i64,
    pub kd: i64,
    pub integral: i64,
    pub previous_error: i64,
    pub output: Option<i64>,
}

impl Pid {
    /// A fresh controller: the given gains, no accumulated state, no output
    /// yet.
    pub open spec fn spec_new(kp: i64, ki: i64, kd: i64) -> Pid {
        Pid { kp, ki, kd, integral: 0, previous_error: 0, output: None }
    }

    pub fn new(kp: i64, ki: i64, kd: i64) -> (r: Self)
        ensures
            r == Pid::spec_new(kp, ki, kd),
    {
        Self { kp, ki, kd, integral: 0, previous_error: 0, output: None }
    }

    /// The correction produced by one evaluation step: the proportional,
    /// integral and derivative terms summed, where the integral term uses
    /// the integral accumulated up to and including this step.
    pub open spec fn spec_output(self, goal: int, measured: int, dt: int) -> int {
        let error = goal - measured;
        let next_integral = self.integral + error * dt;
        let derivative = div_trunc(error - self.previous_error, dt);
        self.kp * error + self.ki * next_integral + self.kd * derivative
    }

    /// Every intermediate value of one evaluation step stays in range.
    pub open spec fn calculate_fits(self, goal: int, measured: int, dt: int) -> bool {
        let error = goal - measured;
        let next_integral = self.integral + error * dt;
        let derivative = div_trunc(error - self.previous_error, dt);
        &&& i64::MIN <= error <= i64::MAX
        &&& i64::MIN <= error * dt <= i64::MAX
        &&& i64::MIN <= next_integral <= i64::MAX
        &&& i64::MIN <= error - self.previous_error <= i64::MAX
        &&& i64::MIN <= self.kp * error <= i64::MAX
        &&& i64::MIN <= self.ki * next_integral <= i64::MAX
        &&& i64::MIN <= self.kd * derivative <= i64::MAX
        &&& i64::MIN <= self.kp * error + self.ki * next_integral <= i64::MAX
        &&& i64::MIN <= self.kp * error + self.ki * next_integral + self.kd * derivative <= i64::MAX
    }

    /// How one evaluation step relates the controller state after the call
    /// to the state before it: gains unchanged, the error integrated, the
    /// error remembered, and the correction recorded as the output.
    pub open spec fn spec_stepped(self, post: Pid, goal: int, measured: int, dt: int) -> bool {
        let error = goal - measured;
        &&& post.kp == self.kp
        &&& post.ki == self.ki
        &&& post.kd == self.kd
        &&& post.integral == self.integral + error * dt
        &&& post.previous_error == error
        &&& (post.output matches Some(v) && v == self.spec_output(goal, measured, dt))
    }

    /// One evaluation step: updates the integral and previous-error memory
    /// and returns the correction for the residual between `goal` and
    /// `measured` over the time step `delta_time`.
    pub fn calculate(&mut self, goal: i64, measured: i64, delta_time: i64) -> (r: i64)
        requires
            delta_time > 0,
            old(self).calculate_fits(goal as int, measured as int, delta_time as int),
        ensures
            r == old(self).spec_output(goal as int, measured as int, delta_time as int),
            old(self).spec_stepped(*final(self), goal as int, measured as int, delta_time as int),
    {
        let error = goal - measured;
        proof {
            crate::math::lemma_div_trunc_bounds(error - self.previous_error, delta_time as int);
        }
        let derivative = (error - self.previous_error) / delta_time;
        self.integral = self.integral + error * delta_time;
        self.previous_error = error;
        let out = self.kp * error + self.ki * self.integral + self.kd * derivative;
        self.output = Some(out);
        out
    }

    /// The correction produced by the most recent evaluation, absent before
    /// the first one.
    pub fn output(&self) -> (r: Option<i64>)
        ensures
            r == self.output,
    {
        self.output
    }
}

/// One axis of the feedback stage fits in range: the PID evaluation itself
/// and the budget scaling applied to its correction.
pub open spec fn axis_feedback_fits(
    pid: Pid,
    goal: i64,
    measured: i64,
    acc: AxisContribution,
    dt: i64,
) -> bool {
    &&& acc.wf()
    &&& pid.calculate_fits(goal as int, measured as int, dt as int)
    &&& multiply_compare_zero_fits(
        pid.spec_output(goal as int, measured as int, dt as int),
        acc.positive as int,
        acc.negative as int,
    )
}

/// The trim a feedback axis contributes: the PID correction scaled by the
/// capability budget of that axis, positive corrections by the positive
/// budget, negative ones by the negative budget, zero to zero exactly.
pub open spec fn spec_axis_feedback(
    pid: Pid,
    goal: i64,
    measured: i64,
    acc: AxisContribution,
    dt: i64,
) -> int {
    spec_multiply_compare_zero(
        pid.spec_output(goal as int, measured as int, dt as int),
        acc.positive as int,
        acc.negative as int,
    )
}

/// The feedback stage: evaluates the six PID loops against the residual
/// between `goal_position` and `position` and scales each correction by the
/// capability budget of its axis.
pub fn calculate(
    goal_position: &ControlAxis<Dimension3<i64>>,
    position: &ControlAxis<Dimension3<i64>>,
    pid6dof: &mut ControlAxis<Dimension3<Pid>>,
    available_acceleration: &ControlAxis<Dimension3<AxisContribution>>,
    delta_time: i64,
) -> (r: ControlAxis<Dimension3<i64>>)
    requires
        delta_time > 0,
        axis_feedback_fits(
            old(pid6dof).linear.x,
            goal_position.linear.x,
            position.linear.x,
            available_acceleration.linear.x,
            delta_time,
        ),
        axis_feedback_fits(
            old(pid6dof).linear.y,
            goal_position.linear.y,
            position.linear.y,
            available_acceleration.linear.y,
            delta_time,
        ),
        axis_feedback_fits(
            old(pid6dof).linear.z,
            goal_position.linear.z,
            position.linear.z,
            available_acceleration.linear.z,
            delta_time,
        ),
        axis_feedback_fits(
            old(pid6dof).rotational.x,
            goal_position.rotational.x,
            position.rotational.x,
            available_acceleration.rotational.x,
            delta_time,
        ),
        axis_feedback_fits(
            old(pid6dof).rotational.y,
            goal_position.rotational.y,
            position.rotational.y,
            available_acceleration.rotational.y,
            delta_time,
        ),
        axis_feedback_fits(
            old(pid6dof).rotational.z,
            goal_position.rotational.z,
            position.rotational.z,
            available_acceleration.rotational.z,
            delta_time,
        ),
    ensures
        r.linear.x == spec_axis_feedback(
            old(pid6dof).linear.x,
            goal_position.linear.x,
            position.linear.x,
            available_acceleration.linear.x,
            delta_time,
        ),
        r.linear.y == spec_axis_feedback(
            old(pid6dof).linear.y,
            goal_position.linear.y,
            position.linear.y,
            available_acceleration.linear.y,
            delta_time,
        ),
        r.linear.z == spec_axis_feedback(
            old(pid6dof).linear.z,
            goal_position.linear.z,
            position.linear.z,
            available_acceleration.linear.z,
            delta_time,
        ),
        r.rotational.x == spec_axis_feedback(
            old(pid6dof).rotational.x,
            goal_position.rotational.x,
            position.rotational.x,
            available_acceleration.rotational.x,
            delta_time,
        ),
        r.rotational.y == spec_axis_feedback(
            old(pid6dof).rotational.y,
            goal_position.rotational.y,
            position.rotational.y,
            available_acceleration.rotational.y,
            delta_time,
        ),
        r.rotational.z == spec_axis_feedback(
            old(pid6dof).rotational.z,
            goal_position.rotational.z,
            position.rotational.z,
            available_acceleration.rotational.z,
            delta_time,
        ),
        old(pid6dof).linear.x.spec_stepped(
            final(pid6dof).linear.x,
            goal_position.linear.x as int,
            position.linear.x as int,
            delta_time as int,
        ),
        old(pid6dof).linear.y.spec_stepped(
            final(pid6dof).linear.y,
            goal_position.linear.y as int,
            position.linear.y as int,
            delta_time as int,
        ),
        old(pid6dof).linear.z.spec_stepped(
            final(pid6dof).linear.z,
            goal_position.linear.z as int,
            position.linear.z as int,
            delta_time as int,
        ),
        old(pid6dof).rotational.x.spec_stepped(
            final(pid6dof).rotational.x,
            goal_position.rotational.x as int,
            position.rotational.x as int,
            delta_time as int,
        ),
        old(pid6dof).rotational.y.spec_stepped(
            final(pid6dof).rotational.y,
            goal_position.rotational.y as int,
            position.rotational.y as int,
            delta_time as int,
        ),
        old(pid6dof).rotational.z.spec_stepped(
            final(pid6dof).rotational.z,
            goal_position.rotational.z as int,
            position.rotational.z as int,
            delta_time as int,
        ),
{
    let lin_x = pid6dof.linear.x.calculate(goal_position.linear.x, position.linear.x, delta_time);
    let lin_y = pid6dof.linear.y.calculate(goal_position.linear.y, position.linear.y, delta_time);
    let lin_z = pid6dof.linear.z.calculate(goal_position.linear.z, position.linear.z, delta_time);
    let rot_x = pid6dof.rotational.x.calculate(
        goal_position.rotational.x,
        position.rotational.x,
        delta_time,
    );
    let rot_y = pid6dof.rotational.y.calculate(
        goal_position.rotational.y,
        position.rotational.y,
        delta_time,
    );
    let rot_z = pid6dof.rotational.z.calculate(
        goal_position.rotational.z,
        position.rotational.z,
        delta_time,
    );
    ControlAxis::new(
        Dimension3::new(
            multiply_compare_zero(
                lin_x,
                available_acceleration.linear.x.positive(),
                available_acceleration.linear.x.negative(),
            ),
            multiply_compare_zero(
                lin_y,
                available_acceleration.linear.y.positive(),
                available_acceleration.linear.y.negative(),
            ),
            multiply_compare_zero(
                lin_z,
                available_acceleration.linear.z.positive(),
                available_acceleration.linear.z.negative(),
            ),
        ),
        Dimension3::new(
            multiply_compare_zero(
                rot_x,
                available_acceleration.rotational.x.positive(),
                available_acceleration.rotational.x.negative(),
            ),
            multiply_compare_zero(
                rot_y,
                available_acceleration.rotational.y.positive(),
                available_acceleration.rotational.y.negative(),
            ),
            multiply_compare_zero(
                rot_z,
                available_acceleration.rotational.z.positive(),
                available_acceleration.rotational.z.negative(),
            ),
        ),
    )
}

} // verus!
