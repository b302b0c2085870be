//! A 3-dimensional vector over exact signed integer components.
//!
//! Every operation is a pure function of its operands and is specified
//! against [`Vec3Model`], the mathematical view of a vector as a triple of
//! unbounded integers.

use vstd::prelude::*;

use crate::arith::div_trunc_i64;
use crate::arith::in_i64;
use crate::arith::isqrt;
use crate::arith::isqrt_u64;
use crate::arith::lemma_isqrt_bounds;
use crate::arith::trunc_div;

verus! {

/// The mathematical view of a vector: three unbounded integers.
pub ghost struct Vec3Model {
    pub x: int,
    pub y: int,
    pub z: int,
}

impl Vec3Model {
    /// Componentwise sum.
    pub open spec fn plus(self, other: Vec3Model) -> Vec3Model {
        Vec3Model { x: self.x + other.x, y: self.y + other.y, z: self.z + other.z }
    }

    /// Componentwise difference.
    pub open spec fn minus(self, other: Vec3Model) -> Vec3Model {
        Vec3Model { x: self.x - other.x, y: self.y - other.y, z: self.z - other.z }
    }

    /// Componentwise scaling.
    pub open spec fn scaled(self, n: int) -> Vec3Model {
        Vec3Model { x: self.x * n, y: self.y * n, z: self.z * n }
    }

    /// Componentwise negation.
    pub open spec fn neg(self) -> Vec3Model {
        Vec3Model { x: -self.x, y: -self.y, z: -self.z }
    }

    /// Dot product.
    pub open spec fn dot(self, other: Vec3Model) -> int {
        self.x * other.x + self.y * other.y + self.z * other.z
    }

    /// Right-hand-rule cross product, by the standard determinant expansion.
    pub open spec fn cross(self, other: Vec3Model) -> Vec3Model {
        Vec3Model {
            x: self.y * other.z - other.y * self.z,
            y: -(self.x * other.z - other.x * self.z),
            z: self.x * other.y - other.x * self.y,
        }
    }

    /// Squared Euclidean norm.
    pub open spec fn norm_sq(self) -> int {
        self.x * self.x + self.y * self.y + self.z * self.z
    }

    /// Componentwise division, rounding each quotient toward zero.
    pub open spec fn divided(self, n: int) -> Vec3Model {
        Vec3Model {
            x: trunc_div(self.x, n),
            y: trunc_div(self.y, n),
            z: trunc_div(self.z, n),
        }
    }

    /// The zero vector.
    pub open spec fn zero() -> Vec3Model {
        Vec3Model { x: 0, y: 0, z: 0 }
    }

    /// Every component is representable as an `i64`.
    pub open spec fn fits_i64(self) -> bool {
        in_i64(self.x) && in_i64(self.y) && in_i64(self.z)
    }

    /// The products and partial sums formed by the dot product all fit.
    pub open spec fn dot_in_range(self, other: Vec3Model) -> bool {
        &&& in_i64(self.x * other.x)
        &&& in_i64(self.y * other.y)
        &&& in_i64(self.z * other.z)
        &&& in_i64(self.x * other.x + self.y * other.y)
        &&& in_i64(self.dot(other))
    }

    /// The products and differences formed by the cross product all fit.
    pub open spec fn cross_in_range(self, other: Vec3Model) -> bool {
        &&& in_i64(self.y * other.z)
        &&& in_i64(other.y * self.z)
        &&& in_i64(self.x * other.z)
        &&& in_i64(other.x * self.z)
        &&& in_i64(self.x * other.y)
        &&& in_i64(other.x * self.y)
        &&& in_i64(self.x * other.z - other.x * self.z)
        &&& self.cross(other).fits_i64()
    }
}

/// A point or direction in 3-dimensional Euclidean space, with exact
/// signed integer components.
#[derive(Clone, Copy, Debug, PartialEq, Eq, Structural, PartialOrd)]
pub struct Vec3 {
    pub x: i64,
    pub y: i64,
    pub z: i64,
}

impl View for Vec3 {
    type V = Vec3Model;

    open spec fn view(&self) -> Vec3Model {
        Vec3Model { x: self.x as int, y: self.y as int, z: self.z as int }
    }
}

impl Vec3 {
    /// Creates a 3-dimensional vector from its components.
    pub fn new(x: i64, y: i64, z: i64) -> (r: Vec3)
        ensures
            r@ == (Vec3Model { x: x as int, y: y as int, z: z as int }),
    {
        Vec3 { x, y, z }
    }

    /// Vector addition: the componentwise sum.
    pub fn add(&self, vec: Vec3) -> (r: Vec3)
        requires
            self@.plus(vec@).fits_i64(),
        ensures
            r@ == self@.plus(vec@),
    {
        Vec3 { x: self.x + vec.x, y: self.y + vec.y, z: self.z + vec.z }
    }

    /// Vector subtraction: the componentwise difference.
    pub fn sub(&self, vec: Vec3) -> (r: Vec3)
        requires
            self@.minus(vec@).fits_i64(),
        ensures
            r@ == self@.minus(vec@),
    {
        Vec3 { x: self.x - vec.x, y: self.y - vec.y, z: self.z - vec.z }
    }

    /// The magnitude (size) of a vector: the integer square root of its
    /// squared Euclidean norm.
    pub fn magnitude(&self) -> (r: i64)
        requires
            in_i64(self@.norm_sq()),
        ensures
            r == isqrt(self@.norm_sq()),
            r >= 0,
    {
        proof {
            assert(self@.x * self@.x >= 0 && self@.y * self@.y >= 0 && self@.z * self@.z >= 0)
                by (nonlinear_arith);
        }
        let s = self.x * self.x + self.y * self.y + self.z * self.z;
        isqrt_u64(s as u64) as i64
    }

    /// Scales the vector to unit magnitude, preserving its direction;
    /// yields no value exactly for the zero vector, which has no
    /// direction.
    pub fn normalize(&self) -> (r: Option<Vec3>)
        requires
            in_i64(self@.norm_sq()),
        ensures
            (r is None) <==> self@ == Vec3Model::zero(),
            r is Some ==> (r->0)@ == self@.divided(isqrt(self@.norm_sq())),
    {
        let m = self.magnitude();
        proof {
            assert(self@.x * self@.x >= 0 && self@.y * self@.y >= 0 && self@.z * self@.z >= 0)
                by (nonlinear_arith);
            lemma_isqrt_bounds(self@.norm_sq());
            if self@.norm_sq() == 0 {
                assert(self@.x == 0 && self@.y == 0 && self@.z == 0) by (nonlinear_arith)
                    requires
                        self@.x * self@.x + self@.y * self@.y + self@.z * self@.z == 0,
                ;
            }
            if self@.norm_sq() != 0 {
                if m == 0 {
                    let q = isqrt(self@.norm_sq());
                    assert((q + 1) * (q + 1) == 1) by (nonlinear_arith)
                        requires
                            q == 0,
                    ;
                    assert(false);
                }
            }
        }
        self.scalar_div(m)
    }

    /// Scalar multiplication: every component scaled by `n`.
    pub fn scalar_mul(&self, n: i64) -> (r: Vec3)
        requires
            self@.scaled(n as int).fits_i64(),
        ensures
            r@ == self@.scaled(n as int),
    {
        Vec3 { x: self.x * n, y: self.y * n, z: self.z * n }
    }

    /// Scalar division: every component divided by `n`, rounding toward
    /// zero; yields no value exactly when `n` is zero.
    pub fn scalar_div(&self, n: i64) -> (r: Option<Vec3>)
        requires
            n == -1 ==> self@.neg().fits_i64(),
        ensures
            (r is None) <==> n == 0,
            r is Some ==> (r->0)@ == self@.divided(n as int),
    {
        if n == 0 {
            return None;
        }
        Some(
            Vec3 {
                x: div_trunc_i64(self.x, n),
                y: div_trunc_i64(self.y, n),
                z: div_trunc_i64(self.z, n),
            },
        )
    }

    /// Dot product: the sum of the componentwise products.
    pub fn dot_product(&self, vec: Vec3) -> (r: i64)
        requires
            self@.dot_in_range(vec@),
        ensures
            r == self@.dot(vec@),
    {
        self.x * vec.x + self.y * vec.y + self.z * vec.z
    }

    /// Cross product of two vectors: a vector orthogonal to `self` and
    /// `vec`, directed by the right-hand rule.
    pub fn cross_product(&self, vec: Vec3) -> (r: Vec3)
        requires
            self@.cross_in_range(vec@),
        ensures
            r@ == self@.cross(vec@),
    {
        Vec3 {
            x: self.y * vec.z - vec.y * self.z,
            y: -(self.x * vec.z - vec.x * self.z),
            z: self.x * vec.y - vec.x * self.y,
        }
    }

    /// Inverts a vector: negates every component.
    pub fn invert(&self) -> (r: Vec3)
        requires
            self@.neg().fits_i64(),
        ensures
            r@ == self@.neg(),
    {
        self.scalar_mul(-1)
    }
}

} // verus!
