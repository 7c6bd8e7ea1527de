//! Fixed-point scalars, vectors and 4x4 matrices.
//!
//! Every scene quantity is carried as an `i64` holding the value times
//! [`FP_ONE`], so `FP_ONE` itself stands for 1.0.  A matrix product
//! divides each accumulated entry once by `FP_ONE`, rounding towards
//! minus infinity (the Euclidean quotient for a positive divisor), so the
//! algebraic laws proved here are exact.  Matrices are row-major:
//! `m03`, `m13`, `m23` make up the translation column.

use vstd::prelude::*;
use vstd::arithmetic::div_mod::{
    lemma_div_multiples_vanish, lemma_div_nonincreasing, lemma_div_of0,
    lemma_fundamental_div_mod, lemma_fundamental_div_mod_converse, lemma_hoist_over_denominator,
    lemma_mod_multiples_basic,
};

verus! {

/// The fixed-point unit: this value stands for 1.0.
pub const FP_ONE: i64 = 65536;

/// Bound on matrix entries and vector components entering a product, so
/// that a four-term dot product of 64-bit values cannot overflow 128 bits.
pub const FP_BOUND: i64 = 0x4000_0000;

/// A 3-vector of fixed-point components.
#[derive(Clone, Copy, Debug, PartialEq, Eq, Structural)]
pub struct Vec3 {
    pub x: i64,
    pub y: i64,
    pub z: i64,
}

/// An RGBA colour, each channel fixed-point in `[0, FP_ONE]` by
/// convention (the convention is not enforced: channels are only copied).
#[derive(Clone, Copy, Debug, PartialEq, Eq, Structural)]
pub struct Rgba {
    pub r: i64,
    pub g: i64,
    pub b: i64,
    pub a: i64,
}

/// A row-major 4x4 fixed-point matrix.
#[derive(Clone, Copy, Debug, PartialEq, Eq, Structural)]
pub struct Mat4 {
    pub m00: i64,
    pub m01: i64,
    pub m02: i64,
    pub m03: i64,
    pub m10: i64,
    pub m11: i64,
    pub m12: i64,
    pub m13: i64,
    pub m20: i64,
    pub m21: i64,
    pub m22: i64,
    pub m23: i64,
    pub m30: i64,
    pub m31: i64,
    pub m32: i64,
    pub m33: i64,
}

/// Mathematical image of a `Vec3`: unbounded integer components.
pub ghost struct Vec3View {
    pub x: int,
    pub y: int,
    pub z: int,
}

/// Mathematical image of a `Mat4`: unbounded integer entries.
pub ghost struct Mat4View {
    pub m00: int,
    pub m01: int,
    pub m02: int,
    pub m03: int,
    pub m10: int,
    pub m11: int,
    pub m12: int,
    pub m13: int,
    pub m20: int,
    pub m21: int,
    pub m22: int,
    pub m23: int,
    pub m30: int,
    pub m31: int,
    pub m32: int,
    pub m33: int,
}

impl View for Vec3 {
    type V = Vec3View;

    open spec fn view(&self) -> Vec3View {
        Vec3View { x: self.x as int, y: self.y as int, z: self.z as int }
    }
}

impl View for Mat4 {
    type V = Mat4View;

    open spec fn view(&self) -> Mat4View {
        Mat4View {
            m00: self.m00 as int,
            m01: self.m01 as int,
            m02: self.m02 as int,
            m03: self.m03 as int,
            m10: self.m10 as int,
            m11: self.m11 as int,
            m12: self.m12 as int,
            m13: self.m13 as int,
            m20: self.m20 as int,
            m21: self.m21 as int,
            m22: self.m22 as int,
            m23: self.m23 as int,
            m30: self.m30 as int,
            m31: self.m31 as int,
            m32: self.m32 as int,
            m33: self.m33 as int,
        }
    }
}

pub open spec fn vec3_neg(v: Vec3View) -> Vec3View {
    Vec3View { x: -v.x, y: -v.y, z: -v.z }
}

pub open spec fn vec3_add(a: Vec3View, b: Vec3View) -> Vec3View {
    Vec3View { x: a.x + b.x, y: a.y + b.y, z: a.z + b.z }
}

/// All components small enough to enter a matrix product.
pub open spec fn vec3_in_range(v: Vec3View) -> bool {
    &&& -FP_BOUND <= v.x <= FP_BOUND
    &&& -FP_BOUND <= v.y <= FP_BOUND
    &&& -FP_BOUND <= v.z <= FP_BOUND
}

/// All entries small enough to enter a matrix product.
pub open spec fn mat4_in_range(m: Mat4View) -> bool {
    &&& -FP_BOUND <= m.m00 <= FP_BOUND
    &&& -FP_BOUND <= m.m01 <= FP_BOUND
    &&& -FP_BOUND <= m.m02 <= FP_BOUND
    &&& -FP_BOUND <= m.m03 <= FP_BOUND
    &&& -FP_BOUND <= m.m10 <= FP_BOUND
    &&& -FP_BOUND <= m.m11 <= FP_BOUND
    &&& -FP_BOUND <= m.m12 <= FP_BOUND
    &&& -FP_BOUND <= m.m13 <= FP_BOUND
    &&& -FP_BOUND <= m.m20 <= FP_BOUND
    &&& -FP_BOUND <= m.m21 <= FP_BOUND
    &&& -FP_BOUND <= m.m22 <= FP_BOUND
    &&& -FP_BOUND <= m.m23 <= FP_BOUND
    &&& -FP_BOUND <= m.m30 <= FP_BOUND
    &&& -FP_BOUND <= m.m31 <= FP_BOUND
    &&& -FP_BOUND <= m.m32 <= FP_BOUND
    &&& -FP_BOUND <= m.m33 <= FP_BOUND
}

/// The identity transform.
pub open spec fn spec_identity() -> Mat4View {
    Mat4View {
        m00: FP_ONE as int,
        m01: 0,
        m02: 0,
        m03: 0,
        m10: 0,
        m11: FP_ONE as int,
        m12: 0,
        m13: 0,
        m20: 0,
        m21: 0,
        m22: FP_ONE as int,
        m23: 0,
        m30: 0,
        m31: 0,
        m32: 0,
        m33: FP_ONE as int,
    }
}

/// Pure translation by `v`.
pub open spec fn spec_translation(v: Vec3View) -> Mat4View {
    Mat4View {
        m00: FP_ONE as int,
        m01: 0,
        m02: 0,
        m03: v.x,
        m10: 0,
        m11: FP_ONE as int,
        m12: 0,
        m13: v.y,
        m20: 0,
        m21: 0,
        m22: FP_ONE as int,
        m23: v.z,
        m30: 0,
        m31: 0,
        m32: 0,
        m33: FP_ONE as int,
    }
}

/// Non-uniform scale by `v` (applied before any translation it is
/// composed with on the left).
pub open spec fn spec_scale(v: Vec3View) -> Mat4View {
    Mat4View {
        m00: v.x,
        m01: 0,
        m02: 0,
        m03: 0,
        m10: 0,
        m11: v.y,
        m12: 0,
        m13: 0,
        m20: 0,
        m21: 0,
        m22: v.z,
        m23: 0,
        m30: 0,
        m31: 0,
        m32: 0,
        m33: FP_ONE as int,
    }
}

/// One entry of a fixed-point matrix product: the four-term dot product,
/// scaled back down once.
pub open spec fn dot4_div(
    a0: int,
    a1: int,
    a2: int,
    a3: int,
    b0: int,
    b1: int,
    b2: int,
    b3: int,
) -> int {
    (a0 * b0 + a1 * b1 + a2 * b2 + a3 * b3) / (FP_ONE as int)
}

/// Fixed-point matrix product (row times column, one rescale per entry).
pub open spec fn spec_mul(a: Mat4View, b: Mat4View) -> Mat4View {
    Mat4View {
        m00: dot4_div(a.m00, a.m01, a.m02, a.m03, b.m00, b.m10, b.m20, b.m30),
        m01: dot4_div(a.m00, a.m01, a.m02, a.m03, b.m01, b.m11, b.m21, b.m31),
        m02: dot4_div(a.m00, a.m01, a.m02, a.m03, b.m02, b.m12, b.m22, b.m32),
        m03: dot4_div(a.m00, a.m01, a.m02, a.m03, b.m03, b.m13, b.m23, b.m33),
        m10: dot4_div(a.m10, a.m11, a.m12, a.m13, b.m00, b.m10, b.m20, b.m30),
        m11: dot4_div(a.m10, a.m11, a.m12, a.m13, b.m01, b.m11, b.m21, b.m31),
        m12: dot4_div(a.m10, a.m11, a.m12, a.m13, b.m02, b.m12, b.m22, b.m32),
        m13: dot4_div(a.m10, a.m11, a.m12, a.m13, b.m03, b.m13, b.m23, b.m33),
        m20: dot4_div(a.m20, a.m21, a.m22, a.m23, b.m00, b.m10, b.m20, b.m30),
        m21: dot4_div(a.m20, a.m21, a.m22, a.m23, b.m01, b.m11, b.m21, b.m31),
        m22: dot4_div(a.m20, a.m21, a.m22, a.m23, b.m02, b.m12, b.m22, b.m32),
        m23: dot4_div(a.m20, a.m21, a.m22, a.m23, b.m03, b.m13, b.m23, b.m33),
        m30: dot4_div(a.m30, a.m31, a.m32, a.m33, b.m00, b.m10, b.m20, b.m30),
        m31: dot4_div(a.m30, a.m31, a.m32, a.m33, b.m01, b.m11, b.m21, b.m31),
        m32: dot4_div(a.m30, a.m31, a.m32, a.m33, b.m02, b.m12, b.m22, b.m32),
        m33: dot4_div(a.m30, a.m31, a.m32, a.m33, b.m03, b.m13, b.m23, b.m33),
    }
}

/// The identity transform, as a value.
pub fn identity() -> (r: Mat4)
    ensures
        r@ == spec_identity(),
{
    Mat4 {
        m00: FP_ONE,
        m01: 0,
        m02: 0,
        m03: 0,
        m10: 0,
        m11: FP_ONE,
        m12: 0,
        m13: 0,
        m20: 0,
        m21: 0,
        m22: FP_ONE,
        m23: 0,
        m30: 0,
        m31: 0,
        m32: 0,
        m33: FP_ONE,
    }
}

/// Translation by `v`, as a matrix.
pub fn translation(v: &Vec3) -> (r: Mat4)
    ensures
        r@ == spec_translation(v@),
{
    Mat4 {
        m00: FP_ONE,
        m01: 0,
        m02: 0,
        m03: v.x,
        m10: 0,
        m11: FP_ONE,
        m12: 0,
        m13: v.y,
        m20: 0,
        m21: 0,
        m22: FP_ONE,
        m23: v.z,
        m30: 0,
        m31: 0,
        m32: 0,
        m33: FP_ONE,
    }
}

/// Non-uniform scale by `v`, as a matrix.
pub fn nonuniform_scale(v: &Vec3) -> (r: Mat4)
    ensures
        r@ == spec_scale(v@),
{
    Mat4 {
        m00: v.x,
        m01: 0,
        m02: 0,
        m03: 0,
        m10: 0,
        m11: v.y,
        m12: 0,
        m13: 0,
        m20: 0,
        m21: 0,
        m22: v.z,
        m23: 0,
        m30: 0,
        m31: 0,
        m32: 0,
        m33: FP_ONE,
    }
}

/// Componentwise negation.
pub fn neg3(v: &Vec3) -> (r: Vec3)
    requires
        vec3_in_range(v@),
    ensures
        r@ == vec3_neg(v@),
{
    Vec3 { x: -v.x, y: -v.y, z: -v.z }
}

/// One entry of the product: dot the four `a` values against the four
/// `b` values and scale back down, rounding towards minus infinity.
fn mul_entry(a0: i64, a1: i64, a2: i64, a3: i64, b0: i64, b1: i64, b2: i64, b3: i64) -> (r: i64)
    requires
        -FP_BOUND <= a0 <= FP_BOUND,
        -FP_BOUND <= a1 <= FP_BOUND,
        -FP_BOUND <= a2 <= FP_BOUND,
        -FP_BOUND <= a3 <= FP_BOUND,
        -FP_BOUND <= b0 <= FP_BOUND,
        -FP_BOUND <= b1 <= FP_BOUND,
        -FP_BOUND <= b2 <= FP_BOUND,
        -FP_BOUND <= b3 <= FP_BOUND,
    ensures
        r as int == dot4_div(
            a0 as int,
            a1 as int,
            a2 as int,
            a3 as int,
            b0 as int,
            b1 as int,
            b2 as int,
            b3 as int,
        ),
{
    proof {
        assert(forall|x: int, y: int|
            -FP_BOUND <= x <= FP_BOUND && -FP_BOUND <= y <= FP_BOUND
                ==> -0x1000000000000000int <= #[trigger] (x * y) <= 0x1000000000000000int)
            by (nonlinear_arith);
    }
    let s: i128 = (a0 as i128) * (b0 as i128) + (a1 as i128) * (b1 as i128) + (a2 as i128) * (b2
        as i128) + (a3 as i128) * (b3 as i128);
    let one: u128 = FP_ONE as u128;
    if s >= 0 {
        let q = (s as u128) / one;
        proof {
            lemma_div_nonincreasing(s as int, FP_ONE as int);
        }
        q as i64
    } else {
        let mag: u128 = (-s) as u128;
        let q = mag / one;
        let rm = mag % one;
        proof {
            let m = FP_ONE as int;
            let qq = (mag as int) / m;
            lemma_fundamental_div_mod(mag as int, m);
            lemma_div_nonincreasing(mag as int, m);
            assert((-(qq + 1)) * m == -(qq * m) - m && (-qq) * m == -(qq * m))
                by (nonlinear_arith);
            if rm == 0 {
                lemma_fundamental_div_mod_converse(s as int, m, -qq, 0);
            } else {
                lemma_fundamental_div_mod_converse(s as int, m, -(qq + 1), m - rm);
            }
        }
        if rm == 0 {
            -(q as i64)
        } else {
            -((q as i64) + 1)
        }
    }
}

/// Fixed-point matrix product.
pub fn mat_mul(a: &Mat4, b: &Mat4) -> (r: Mat4)
    requires
        mat4_in_range(a@),
        mat4_in_range(b@),
    ensures
        r@ == spec_mul(a@, b@),
{
    Mat4 {
        m00: mul_entry(a.m00, a.m01, a.m02, a.m03, b.m00, b.m10, b.m20, b.m30),
        m01: mul_entry(a.m00, a.m01, a.m02, a.m03, b.m01, b.m11, b.m21, b.m31),
        m02: mul_entry(a.m00, a.m01, a.m02, a.m03, b.m02, b.m12, b.m22, b.m32),
        m03: mul_entry(a.m00, a.m01, a.m02, a.m03, b.m03, b.m13, b.m23, b.m33),
        m10: mul_entry(a.m10, a.m11, a.m12, a.m13, b.m00, b.m10, b.m20, b.m30),
        m11: mul_entry(a.m10, a.m11, a.m12, a.m13, b.m01, b.m11, b.m21, b.m31),
        m12: mul_entry(a.m10, a.m11, a.m12, a.m13, b.m02, b.m12, b.m22, b.m32),
        m13: mul_entry(a.m10, a.m11, a.m12, a.m13, b.m03, b.m13, b.m23, b.m33),
        m20: mul_entry(a.m20, a.m21, a.m22, a.m23, b.m00, b.m10, b.m20, b.m30),
        m21: mul_entry(a.m20, a.m21, a.m22, a.m23, b.m01, b.m11, b.m21, b.m31),
        m22: mul_entry(a.m20, a.m21, a.m22, a.m23, b.m02, b.m12, b.m22, b.m32),
        m23: mul_entry(a.m20, a.m21, a.m22, a.m23, b.m03, b.m13, b.m23, b.m33),
        m30: mul_entry(a.m30, a.m31, a.m32, a.m33, b.m00, b.m10, b.m20, b.m30),
        m31: mul_entry(a.m30, a.m31, a.m32, a.m33, b.m01, b.m11, b.m21, b.m31),
        m32: mul_entry(a.m30, a.m31, a.m32, a.m33, b.m02, b.m12, b.m22, b.m32),
        m33: mul_entry(a.m30, a.m31, a.m32, a.m33, b.m03, b.m13, b.m23, b.m33),
    }
}

/// A pure translation and the translation by the negated vector are
/// mutually inverse: their product, in either order, is the identity.
pub proof fn lemma_translation_inverse(v: Vec3View)
    ensures
        spec_mul(spec_translation(v), spec_translation(vec3_neg(v))) == spec_identity(),
        spec_mul(spec_translation(vec3_neg(v)), spec_translation(v)) == spec_identity(),
{
    let one = FP_ONE as int;
    lemma_div_of0(one);
    lemma_div_multiples_vanish(one, one);
}

/// Shifting a product by one more whole-unit translation on the right is
/// the same as translating by the sum: `(p T(a)) T(b) == p T(a + b)`
/// whenever `b`'s components are whole fixed-point units.
pub proof fn lemma_translation_shift(p: Mat4View, a: Vec3View, b: Vec3View)
    requires
        b.x % (FP_ONE as int) == 0,
        b.y % (FP_ONE as int) == 0,
        b.z % (FP_ONE as int) == 0,
    ensures
        spec_mul(spec_mul(p, spec_translation(a)), spec_translation(b)) == spec_mul(
            p,
            spec_translation(vec3_add(a, b)),
        ),
{
    let one = FP_ONE as int;
    lemma_div_of0(one);
    lemma_col3_shift(p.m00, p.m01, p.m02, p.m03, a, b);
    lemma_col3_shift(p.m10, p.m11, p.m12, p.m13, a, b);
    lemma_col3_shift(p.m20, p.m21, p.m22, p.m23, a, b);
    lemma_col3_shift(p.m30, p.m31, p.m32, p.m33, a, b);
    lemma_row_times_one(p.m00, p.m01, p.m02, p.m03);
    lemma_row_times_one(p.m10, p.m11, p.m12, p.m13);
    lemma_row_times_one(p.m20, p.m21, p.m22, p.m23);
    lemma_row_times_one(p.m30, p.m31, p.m32, p.m33);
}

/// Each of the first three columns of `p T(v)` is the matching column of
/// `p`: the dot against a unit column rescales exactly.
proof fn lemma_row_times_one(p0: int, p1: int, p2: int, p3: int)
    ensures
        (p0 * (FP_ONE as int) + p1 * 0 + p2 * 0 + p3 * 0) / (FP_ONE as int) == p0,
        (p0 * 0 + p1 * (FP_ONE as int) + p2 * 0 + p3 * 0) / (FP_ONE as int) == p1,
        (p0 * 0 + p1 * 0 + p2 * (FP_ONE as int) + p3 * 0) / (FP_ONE as int) == p2,
        (p0 * 0 + p1 * 0 + p2 * 0 + p3 * (FP_ONE as int)) / (FP_ONE as int) == p3,
{
    let one = FP_ONE as int;
    assert(p0 * one == one * p0 && p1 * one == one * p1 && p2 * one == one * p2 && p3 * one == one
        * p3);
    lemma_div_multiples_vanish(p0, one);
    lemma_div_multiples_vanish(p1, one);
    lemma_div_multiples_vanish(p2, one);
    lemma_div_multiples_vanish(p3, one);
}

/// The translation column of `(p T(a)) T(b)` equals that of `p T(a + b)`
/// for one row of `p`, when `b` is made of whole fixed-point units.
proof fn lemma_col3_shift(p0: int, p1: int, p2: int, p3: int, a: Vec3View, b: Vec3View)
    requires
        b.x % (FP_ONE as int) == 0,
        b.y % (FP_ONE as int) == 0,
        b.z % (FP_ONE as int) == 0,
    ensures
        (p0 * b.x + p1 * b.y + p2 * b.z + ((p0 * a.x + p1 * a.y + p2 * a.z + p3 * (FP_ONE as int))
            / (FP_ONE as int)) * (FP_ONE as int)) / (FP_ONE as int) == (p0 * (a.x + b.x) + p1 * (
        a.y + b.y) + p2 * (a.z + b.z) + p3 * (FP_ONE as int)) / (FP_ONE as int),
{
    let one = FP_ONE as int;
    lemma_fundamental_div_mod(b.x, one);
    lemma_fundamental_div_mod(b.y, one);
    lemma_fundamental_div_mod(b.z, one);
    let mx = b.x / one;
    let my = b.y / one;
    let mz = b.z / one;
    let s = p0 * mx + p1 * my + p2 * mz;
    let inner = p0 * a.x + p1 * a.y + p2 * a.z + p3 * one;
    assert(p0 * b.x == one * (p0 * mx) && p1 * b.y == one * (p1 * my) && p2 * b.z == one * (p2
        * mz)) by (nonlinear_arith)
        requires
            b.x == one * mx,
            b.y == one * my,
            b.z == one * mz,
    ;
    // Left side: the whole-unit part comes out of the division exactly.
    assert((inner / one) * one == one * (inner / one));
    assert(p0 * b.x + p1 * b.y + p2 * b.z + (inner / one) * one == one * (s + inner / one))
        by (nonlinear_arith)
        requires
            p0 * b.x == one * (p0 * mx),
            p1 * b.y == one * (p1 * my),
            p2 * b.z == one * (p2 * mz),
            s == p0 * mx + p1 * my + p2 * mz,
    ;
    lemma_div_multiples_vanish(s + inner / one, one);
    // Right side: distribute, then hoist the whole-unit part over the division.
    assert(p0 * (a.x + b.x) + p1 * (a.y + b.y) + p2 * (a.z + b.z) + p3 * one == inner + s * one)
        by (nonlinear_arith)
        requires
            p0 * b.x == one * (p0 * mx),
            p1 * b.y == one * (p1 * my),
            p2 * b.z == one * (p2 * mz),
            s == p0 * mx + p1 * my + p2 * mz,
            inner == p0 * a.x + p1 * a.y + p2 * a.z + p3 * one,
    ;
    lemma_hoist_over_denominator(inner, s, FP_ONE as nat);
}

/// Whole-unit components stay whole under negation.
pub proof fn lemma_neg_whole_units(v: Vec3View)
    requires
        v.x % (FP_ONE as int) == 0,
        v.y % (FP_ONE as int) == 0,
        v.z % (FP_ONE as int) == 0,
    ensures
        vec3_neg(v).x % (FP_ONE as int) == 0,
        vec3_neg(v).y % (FP_ONE as int) == 0,
        vec3_neg(v).z % (FP_ONE as int) == 0,
{
    let one = FP_ONE as int;
    lemma_fundamental_div_mod(v.x, one);
    lemma_fundamental_div_mod(v.y, one);
    lemma_fundamental_div_mod(v.z, one);
    assert(-(one * (v.x / one)) == (-(v.x / one)) * one && -(one * (v.y / one)) == (-(v.y / one))
        * one && -(one * (v.z / one)) == (-(v.z / one)) * one) by (nonlinear_arith);
    lemma_mod_multiples_basic(-(v.x / one), one);
    lemma_mod_multiples_basic(-(v.y / one), one);
    lemma_mod_multiples_basic(-(v.z / one), one);
}

} // verus!
