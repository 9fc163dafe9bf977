//! Three-component vectors over fixed-point scalars.
//!
//! Positions, directions and velocities are `Vec3Fx` values: three `i64`
//! fixed-point coordinates with `y` as the vertical axis.  Every operation
//! states its result exactly, coordinate by coordinate.

use crate::fixed::fx_mul;
use crate::fixed::fx_mul_value;
use crate::fixed::lemma_fx_mul_factor_bound;
use crate::fixed::lemma_fx_mul_one;
use crate::fixed::lemma_fx_mul_zero;
use crate::fixed::FX_ONE;
use vstd::prelude::*;

verus! {

/// Largest coordinate magnitude the per-tick functions accept: one thousand
/// million world units, far beyond any playable scene, yet small enough that
/// the sums and small scalings below stay inside `i64`.
pub const COORD_LIMIT: i64 = 1_000_000_000_000_000;

/// A vector of three fixed-point coordinates; `y` points up.
#[derive(Clone, Copy, Debug, PartialEq, Eq, Structural)]
pub struct Vec3Fx {
    pub x: i64,
    pub y: i64,
    pub z: i64,
}

impl Vec3Fx {
    /// All three coordinates are exactly zero.
    pub open spec fn is_zero(self) -> bool {
        self.x == 0 && self.y == 0 && self.z == 0
    }

    /// Every coordinate lies within `COORD_LIMIT`.
    pub open spec fn bounded(self) -> bool {
        &&& -COORD_LIMIT <= self.x <= COORD_LIMIT
        &&& -COORD_LIMIT <= self.y <= COORD_LIMIT
        &&& -COORD_LIMIT <= self.z <= COORD_LIMIT
    }

    /// Every coordinate lies within `FX_ONE`, as the coordinates of a unit
    /// direction do.
    pub open spec fn unit_range(self) -> bool {
        &&& -FX_ONE <= self.x <= FX_ONE
        &&& -FX_ONE <= self.y <= FX_ONE
        &&& -FX_ONE <= self.z <= FX_ONE
    }

    /// The zero vector.
    pub fn zero() -> (r: Vec3Fx)
        ensures
            r.is_zero(),
    {
        Vec3Fx { x: 0, y: 0, z: 0 }
    }

    /// Coordinate-wise sum.
    pub fn plus(self, other: Vec3Fx) -> (r: Vec3Fx)
        requires
            i64::MIN <= self.x + other.x <= i64::MAX,
            i64::MIN <= self.y + other.y <= i64::MAX,
            i64::MIN <= self.z + other.z <= i64::MAX,
        ensures
            r.x == self.x + other.x,
            r.y == self.y + other.y,
            r.z == self.z + other.z,
    {
        Vec3Fx { x: self.x + other.x, y: self.y + other.y, z: self.z + other.z }
    }

    /// Coordinate-wise difference.
    pub fn minus(self, other: Vec3Fx) -> (r: Vec3Fx)
        requires
            i64::MIN <= self.x - other.x <= i64::MAX,
            i64::MIN <= self.y - other.y <= i64::MAX,
            i64::MIN <= self.z - other.z <= i64::MAX,
        ensures
            r.x == self.x - other.x,
            r.y == self.y - other.y,
            r.z == self.z - other.z,
    {
        Vec3Fx { x: self.x - other.x, y: self.y - other.y, z: self.z - other.z }
    }

    /// Scaling by a whole number of units — exact, no rounding.
    pub fn scaled_units(self, k: i64) -> (r: Vec3Fx)
        requires
            i64::MIN <= self.x * k <= i64::MAX,
            i64::MIN <= self.y * k <= i64::MAX,
            i64::MIN <= self.z * k <= i64::MAX,
        ensures
            r.x == self.x * k,
            r.y == self.y * k,
            r.z == self.z * k,
    {
        Vec3Fx { x: self.x * k, y: self.y * k, z: self.z * k }
    }

    /// Scaling by a fixed-point factor between zero and one.  The result
    /// never grows a coordinate's magnitude, and the full factor `FX_ONE`
    /// gives the vector back exactly.
    pub fn scaled_fraction(self, factor: i64) -> (r: Vec3Fx)
        requires
            0 <= factor <= FX_ONE,
        ensures
            r.x as int == fx_mul_value(self.x as int, factor as int),
            r.y as int == fx_mul_value(self.y as int, factor as int),
            r.z as int == fx_mul_value(self.z as int, factor as int),
            self.x >= 0 ==> 0 <= r.x <= self.x,
            self.x < 0 ==> self.x <= r.x <= 0,
            self.y >= 0 ==> 0 <= r.y <= self.y,
            self.y < 0 ==> self.y <= r.y <= 0,
            self.z >= 0 ==> 0 <= r.z <= self.z,
            self.z < 0 ==> self.z <= r.z <= 0,
            factor == FX_ONE ==> r == self,
            factor == 0 ==> r.is_zero(),
    {
        proof {
            lemma_fx_mul_factor_bound(self.x as int, factor as int);
            lemma_fx_mul_factor_bound(self.y as int, factor as int);
            lemma_fx_mul_factor_bound(self.z as int, factor as int);
            lemma_fx_mul_one(self.x as int);
            lemma_fx_mul_one(self.y as int);
            lemma_fx_mul_one(self.z as int);
            lemma_fx_mul_zero(self.x as int);
            lemma_fx_mul_zero(self.y as int);
            lemma_fx_mul_zero(self.z as int);
        }
        Vec3Fx { x: fx_mul(self.x, factor), y: fx_mul(self.y, factor), z: fx_mul(self.z, factor) }
    }
}

} // verus!
