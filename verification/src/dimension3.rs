//! Three-component containers: one value per spatial component of a control
//! axis, plus bounded variants whose setters keep their components inside a
//! configured range.

use vstd::prelude::*;

verus! {

/// Three independent components (x, y, z) of one control axis. No
/// cross-component coupling exists anywhere in the pipeline: each component
/// is computed independently.
#[derive(Clone, Copy)]
pub struct Dimension3<T> {
    pub x: T,
    pub y: T,
    pub z: T,
}

impl<T: Copy> Dimension3<T> {
    pub fn new(x: T, y: T, z: T) -> (r: Self)
        ensures
            r.x == x,
            r.y == y,
            r.z == z,
    {
        Self { x, y, z }
    }

    /// All three components set to the same value.
    pub fn default(value: T) -> (r: Self)
        ensures
            r.x == value,
            r.y == value,
            r.z == value,
    {
        Self { x: value, y: value, z: value }
    }

    pub fn x(&self) -> (r: T)
        ensures
            r == self.x,
    {
        self.x
    }

    pub fn y(&self) -> (r: T)
        ensures
            r == self.y,
    {
        self.y
    }

    pub fn z(&self) -> (r: T)
        ensures
            r == self.z,
    {
        self.z
    }

    pub fn x_mut(&mut self) -> (r: &mut T)
        ensures
            *r == old(self).x,
            *final(self) == (Dimension3 { x: *final(r), ..*old(self) }),
    {
        &mut self.x
    }

    pub fn y_mut(&mut self) -> (r: &mut T)
        ensures
            *r == old(self).y,
            *final(self) == (Dimension3 { y: *final(r), ..*old(self) }),
    {
        &mut self.y
    }

    pub fn z_mut(&mut self) -> (r: &mut T)
        ensures
            *r == old(self).z,
            *final(self) == (Dimension3 { z: *final(r), ..*old(self) }),
    {
        &mut self.z
    }
}

/// A direction in space: three signed axis components and a magnitude. The
/// propulsion allocator reads the components as the share of a thruster's
/// force contributed to each linear axis, with the sign selecting which side
/// of the axis receives the contribution.
#[derive(Clone, Copy)]
pub struct Vector3 {
    pub x: i64,
    pub y: i64,
    pub z: i64,
    pub magnitude: i64,
}

impl Vector3 {
    pub fn new(x: i64, y: i64, z: i64, magnitude: i64) -> (r: Self)
        ensures
            r.x == x,
            r.y == y,
            r.z == z,
            r.magnitude == magnitude,
    {
        Self { x, y, z, magnitude }
    }

    pub fn x(&self) -> (r: i64)
        ensures
            r == self.x,
    {
        self.x
    }

    pub fn y(&self) -> (r: i64)
        ensures
            r == self.y,
    {
        self.y
    }

    pub fn z(&self) -> (r: i64)
        ensures
            r == self.z,
    {
        self.z
    }

    pub fn magnitude(&self) -> (r: i64)
        ensures
            r == self.magnitude,
    {
        self.magnitude
    }
}

/// Three components that are never below a configured minimum.
#[derive(Clone, Copy)]
pub struct MinDimension3 {
    pub x: i64,
    pub y: i64,
    pub z: i64,
    pub min: i64,
}

impl MinDimension3 {
    /// Every component is at least the minimum.
    pub open spec fn wf(self) -> bool {
        self.x >= self.min && self.y >= self.min && self.z >= self.min
    }

    /// Components below `min` are raised to `min`.
    pub fn new(x: i64, y: i64, z: i64, min: i64) -> (r: Self)
        ensures
            r.min == min,
            r.x == crate::math::spec_max(x as int, min as int),
            r.y == crate::math::spec_max(y as int, min as int),
            r.z == crate::math::spec_max(z as int, min as int),
            r.wf(),
    {
        Self {
            x: if x < min { min } else { x },
            y: if y < min { min } else { y },
            z: if z < min { min } else { z },
            min,
        }
    }

    pub fn x(&self) -> (r: i64)
        ensures
            r == self.x,
    {
        self.x
    }

    pub fn y(&self) -> (r: i64)
        ensures
            r == self.y,
    {
        self.y
    }

    pub fn z(&self) -> (r: i64)
        ensures
            r == self.z,
    {
        self.z
    }

    pub fn set_x(&mut self, value: i64)
        ensures
            final(self).x == crate::math::spec_max(value as int, old(self).min as int),
            final(self).y == old(self).y,
            final(self).z == old(self).z,
            final(self).min == old(self).min,
    {
        self.x = if value < self.min { self.min } else { value };
    }

    pub fn set_y(&mut self, value: i64)
        ensures
            final(self).y == crate::math::spec_max(value as int, old(self).min as int),
            final(self).x == old(self).x,
            final(self).z == old(self).z,
            final(self).min == old(self).min,
    {
        self.y = if value < self.min { self.min } else { value };
    }

    pub fn set_z(&mut self, value: i64)
        ensures
            final(self).z == crate::math::spec_max(value as int, old(self).min as int),
            final(self).x == old(self).x,
            final(self).y == old(self).y,
            final(self).min == old(self).min,
    {
        self.z = if value < self.min { self.min } else { value };
    }
}

/// Three components that are never above a configured maximum.
#[derive(Clone, Copy)]
pub struct MaxDimension3 {
    pub x: i64,
    pub y: i64,
    pub z: i64,
    pub max: i64,
}

impl MaxDimension3 {
    /// Every component is at most the maximum.
    pub open spec fn wf(self) -> bool {
        self.x <= self.max && self.y <= self.max && self.z <= self.max
    }

    /// Components above `max` are lowered to `max`.
    pub fn new(x: i64, y: i64, z: i64, max: i64) -> (r: Self)
        ensures
            r.max == max,
            r.x == crate::math::spec_min(x as int, max as int),
            r.y == crate::math::spec_min(y as int, max as int),
            r.z == crate::math::spec_min(z as int, max as int),
            r.wf(),
    {
        Self {
            x: if x > max { max } else { x },
            y: if y > max { max } else { y },
            z: if z > max { max } else { z },
            max,
        }
    }

    pub fn x(&self) -> (r: i64)
        ensures
            r == self.x,
    {
        self.x
    }

    pub fn y(&self) -> (r: i64)
        ensures
            r == self.y,
    {
        self.y
    }

    pub fn z(&self) -> (r: i64)
        ensures
            r == self.z,
    {
        self.z
    }

    pub fn set_x(&mut self, value: i64)
        ensures
            final(self).x == crate::math::spec_min(value as int, old(self).max as int),
            final(self).y == old(self).y,
            final(self).z == old(self).z,
            final(self).max == old(self).max,
    {
        self.x = if value > self.max { self.max } else { value };
    }

    pub fn set_y(&mut self, value: i64)
        ensures
            final(self).y == crate::math::spec_min(value as int, old(self).max as int),
            final(self).x == old(self).x,
            final(self).z == old(self).z,
            final(self).max == old(self).max,
    {
        self.y = if value > self.max { self.max } else { value };
    }

    pub fn set_z(&mut self, value: i64)
        ensures
            final(self).z == crate::math::spec_min(value as int, old(self).max as int),
            final(self).x == old(self).x,
            final(self).y == old(self).y,
            final(self).max == old(self).max,
    {
        self.z = if value > self.max { self.max } else { value };
    }
}

/// Three components held inside a configured closed interval.
#[derive(Clone, Copy)]
pub struct ClampedDimension3 {
    pub x: i64,
    pub y: i64,
    pub z: i64,
    pub max: i64,
    pub min: i64,
}

impl ClampedDimension3 {
    /// Every component lies inside the interval.
    pub open spec fn wf(self) -> bool {
        &&& self.min <= self.max
        &&& self.min <= self.x <= self.max
        &&& self.min <= self.y <= self.max
        &&& self.min <= self.z <= self.max
    }

    /// Components outside `[min, max]` are saturated to the nearer bound.
    pub fn new(x: i64, y: i64, z: i64, max: i64, min: i64) -> (r: Self)
        requires
            min <= max,
        ensures
            r.max == max,
            r.min == min,
            r.x == crate::math::spec_clamp(x as int, min as int, max as int),
            r.y == crate::math::spec_clamp(y as int, min as int, max as int),
            r.z == crate::math::spec_clamp(z as int, min as int, max as int),
            r.wf(),
    {
        Self {
            x: crate::math::clamp(x, min, max),
            y: crate::math::clamp(y, min, max),
            z: crate::math::clamp(z, min, max),
            max,
            min,
        }
    }

    pub fn x(&self) -> (r: i64)
        ensures
            r == self.x,
    {
        self.x
    }

    pub fn y(&self) -> (r: i64)
        ensures
            r == self.y,
    {
        self.y
    }

    pub fn z(&self) -> (r: i64)
        ensures
            r == self.z,
    {
        self.z
    }

    pub fn set_x(&mut self, value: i64)
        requires
            old(self).min <= old(self).max,
        ensures
            final(self).x == crate::math::spec_clamp(value as int, old(self).min as int, old(self).max as int),
            final(self).y == old(self).y,
            final(self).z == old(self).z,
            final(self).max == old(self).max,
            final(self).min == old(self).min,
    {
        self.x = crate::math::clamp(value, self.min, self.max);
    }

    pub fn set_y(&mut self, value: i64)
        requires
            old(self).min <= old(self).max,
        ensures
            final(self).y == crate::math::spec_clamp(value as int, old(self).min as int, old(self).max as int),
            final(self).x == old(self).x,
            final(self).z == old(self).z,
            final(self).max == old(self).max,
            final(self).min == old(self).min,
    {
        self.y = crate::math::clamp(value, self.min, self.max);
    }

    pub fn set_z(&mut self, value: i64)
        requires
            old(self).min <= old(self).max,
        ensures
            final(self).z == crate::math::spec_clamp(value as int, old(self).min as int, old(self).max as int),
            final(self).x == old(self).x,
            final(self).y == old(self).y,
            final(self).max == old(self).max,
            final(self).min == old(self).min,
    {
        self.z = crate::math::clamp(value, self.min, self.max);
    }
}

} // verus!
