//! The algebraic laws of the vector operations, stated over the
//! mathematical model and proved once for all vectors.

use vstd::prelude::*;

use crate::arith::isqrt;
use crate::arith::lemma_isqrt_unique;
use crate::arith::lemma_trunc_div_exact;
use crate::arith::trunc_div;
use crate::vec3::Vec3Model;

verus! {

/// Adding a vector and then subtracting it again gives back the
/// original vector, exactly.
pub proof fn lemma_add_sub_cancel(a: Vec3Model, b: Vec3Model)
    ensures
        a.plus(b).minus(b) == a,
{
}

/// Inverting a vector twice gives back the original vector.
pub proof fn lemma_invert_involution(a: Vec3Model)
    ensures
        a.neg().neg() == a,
{
}

/// The dot product is commutative.
pub proof fn lemma_dot_comm(a: Vec3Model, b: Vec3Model)
    ensures
        a.dot(b) == b.dot(a),
{
}

/// The cross product is anti-commutative: swapping the operands
/// inverts the result.
pub proof fn lemma_cross_anticomm(a: Vec3Model, b: Vec3Model)
    ensures
        a.cross(b) == b.cross(a).neg(),
{
}

/// A vector whose magnitude is exact — its squared norm is the perfect
/// square of an `m` that divides every component — normalizes to a
/// vector of magnitude exactly one.
pub proof fn lemma_normalize_unit(a: Vec3Model, m: int)
    requires
        m > 0,
        a.norm_sq() == m * m,
        a.x % m == 0,
        a.y % m == 0,
        a.z % m == 0,
    ensures
        isqrt(a.norm_sq()) == m,
        a.divided(m).norm_sq() == 1,
        isqrt(a.divided(m).norm_sq()) == 1,
{
    assert(m * m <= m * m < (m + 1) * (m + 1)) by (nonlinear_arith)
        requires
            m > 0,
    ;
    lemma_isqrt_unique(a.norm_sq(), m);
    lemma_trunc_div_exact(a.x, m);
    lemma_trunc_div_exact(a.y, m);
    lemma_trunc_div_exact(a.z, m);
    let qx = trunc_div(a.x, m);
    let qy = trunc_div(a.y, m);
    let qz = trunc_div(a.z, m);
    assert(qx * qx + qy * qy + qz * qz == 1) by (nonlinear_arith)
        requires
            m > 0,
            qx * m == a.x,
            qy * m == a.y,
            qz * m == a.z,
            a.x * a.x + a.y * a.y + a.z * a.z == m * m,
    ;
    lemma_isqrt_unique(1, 1);
}

} // verus!
