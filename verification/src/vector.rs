//! Positions, basis vectors and analog sticks, with their mathematical views.

use vstd::prelude::*;

verus! {

/// A vector of three unbounded integers: what every vector type of this
/// crate is seen as in contracts.
pub struct MathVec3 {
    pub x: int,
    pub y: int,
    pub z: int,
}

impl MathVec3 {
    /// Component-wise sum.
    pub open spec fn plus(self, other: MathVec3) -> MathVec3 {
        MathVec3 { x: self.x + other.x, y: self.y + other.y, z: self.z + other.z }
    }

    /// The vector pointing the other way.
    pub open spec fn negated(self) -> MathVec3 {
        MathVec3 { x: -self.x, y: -self.y, z: -self.z }
    }

    /// The square of the Euclidean norm.
    pub open spec fn norm_sq(self) -> int {
        self.x * self.x + self.y * self.y + self.z * self.z
    }
}

/// The largest magnitude that a coordinate may have for a position to be
/// moved: two to the power of 62 millionths.
pub const WORLD_LIMIT: i64 = 0x4000_0000_0000_0000;

/// A position or a scale, in millionths of a scene unit.
#[derive(Clone, Copy, Debug, PartialEq, Eq, Structural)]
pub struct Vec3 {
    pub x: i64,
    pub y: i64,
    pub z: i64,
}

impl View for Vec3 {
    type V = MathVec3;

    open spec fn view(&self) -> MathVec3 {
        MathVec3 { x: self.x as int, y: self.y as int, z: self.z as int }
    }
}

/// The position with the given coordinates, where each fits in 64 bits.
pub open spec fn vec3(x: int, y: int, z: int) -> Vec3 {
    Vec3 { x: x as i64, y: y as i64, z: z as i64 }
}

impl Vec3 {
    /// Every coordinate lies within [`WORLD_LIMIT`] of zero.
    pub open spec fn in_world(self) -> bool {
        &&& -WORLD_LIMIT <= self.x <= WORLD_LIMIT
        &&& -WORLD_LIMIT <= self.y <= WORLD_LIMIT
        &&& -WORLD_LIMIT <= self.z <= WORLD_LIMIT
    }

    pub fn new(x: i64, y: i64, z: i64) -> (v: Vec3)
        ensures
            v == (Vec3 { x, y, z }),
    {
        Vec3 { x, y, z }
    }

    /// The origin.
    pub fn zero() -> (v: Vec3)
        ensures
            v == (Vec3 { x: 0, y: 0, z: 0 }),
    {
        Vec3 { x: 0, y: 0, z: 0 }
    }

    /// Tells whether the position can be moved by the controllers.
    pub fn is_in_world(&self) -> (b: bool)
        ensures
            b == self.in_world(),
    {
        -WORLD_LIMIT <= self.x && self.x <= WORLD_LIMIT && -WORLD_LIMIT <= self.y && self.y
            <= WORLD_LIMIT && -WORLD_LIMIT <= self.z && self.z <= WORLD_LIMIT
    }
}

/// One column of a basis: a direction in millionths, not necessarily of
/// unit length.
#[derive(Clone, Copy, Debug, PartialEq, Eq, Structural)]
pub struct Axis {
    pub x: i32,
    pub y: i32,
    pub z: i32,
}

impl View for Axis {
    type V = MathVec3;

    open spec fn view(&self) -> MathVec3 {
        MathVec3 { x: self.x as int, y: self.y as int, z: self.z as int }
    }
}

impl Axis {
    pub fn new(x: i32, y: i32, z: i32) -> (a: Axis)
        ensures
            a == (Axis { x, y, z }),
    {
        Axis { x, y, z }
    }
}

/// The three axes of a node's frame, as the scene reports them: `col_a`
/// points to the node's right, `col_b` up and `col_c` backwards.
#[derive(Clone, Copy, Debug, PartialEq, Eq, Structural)]
pub struct Basis {
    pub col_a: Axis,
    pub col_b: Axis,
    pub col_c: Axis,
}

/// The frame of a node that is neither rotated nor scaled.
pub open spec fn unrotated() -> Basis {
    Basis {
        col_a: Axis { x: 1_000_000, y: 0, z: 0 },
        col_b: Axis { x: 0, y: 1_000_000, z: 0 },
        col_c: Axis { x: 0, y: 0, z: 1_000_000 },
    }
}

impl Basis {
    /// The frame of a node that is neither rotated nor scaled.
    pub fn identity() -> (b: Basis)
        ensures
            b == unrotated(),
    {
        Basis {
            col_a: Axis { x: 1_000_000, y: 0, z: 0 },
            col_b: Axis { x: 0, y: 1_000_000, z: 0 },
            col_c: Axis { x: 0, y: 0, z: 1_000_000 },
        }
    }
}

/// A frame and the place of its origin.
#[derive(Clone, Copy, Debug, PartialEq, Eq, Structural)]
pub struct Transform {
    pub basis: Basis,
    pub origin: Vec3,
}

/// Full deflection of an analog stick along one axis.
pub const STICK_ONE: i16 = 32767;

/// The deflection of an analog stick: each axis is a signed fraction of
/// [`STICK_ONE`].
#[derive(Clone, Copy, Debug, PartialEq, Eq, Structural)]
pub struct Stick {
    pub x: i16,
    pub y: i16,
}

impl Stick {
    /// The square of the deflection's magnitude, in squared stick counts.
    pub open spec fn magnitude_sq(self) -> int {
        self.x * self.x + self.y * self.y
    }

    /// The stick is deflected by more than a tenth of its travel.
    pub open spec fn beyond_deadzone(self) -> bool {
        100 * self.magnitude_sq() > STICK_ONE * STICK_ONE
    }

    pub fn new(x: i16, y: i16) -> (s: Stick)
        ensures
            s == (Stick { x, y }),
    {
        Stick { x, y }
    }

    /// A stick at rest.
    pub fn centered() -> (s: Stick)
        ensures
            s == (Stick { x: 0, y: 0 }),
    {
        Stick { x: 0, y: 0 }
    }
}

} // verus!
