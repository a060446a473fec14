//! 4×4 matrices of fixed-point entries, stored column-major as the GPU
//! expects them: `mIJ` is the entry in column `I`, row `J`. The `SMat`
//! shadow carries the same entries as unbounded integers, so contracts are
//! stated without any reference to machine truncation.

use vstd::prelude::*;
use crate::fixed::{FX_ONE, fx_mul, lemma_abs_mul_le, lemma_floor_div_bound, mul_fx};
use vstd::arithmetic::div_mod::{lemma_div_pos_is_pos, lemma_div_is_ordered};

verus! {

/// A flattened 4×4 transform matrix, the form uploaded per instance.
#[derive(Clone, Copy, Debug, PartialEq, Eq, Structural)]
pub struct Mat4 {
    pub m00: i64, pub m01: i64, pub m02: i64, pub m03: i64,
    pub m10: i64, pub m11: i64, pub m12: i64, pub m13: i64,
    pub m20: i64, pub m21: i64, pub m22: i64, pub m23: i64,
    pub m30: i64, pub m31: i64, pub m32: i64, pub m33: i64,
}

/// The mathematical shadow of a `Mat4`: the same sixteen entries as `int`.
pub ghost struct SMat {
    pub m00: int, pub m01: int, pub m02: int, pub m03: int,
    pub m10: int, pub m11: int, pub m12: int, pub m13: int,
    pub m20: int, pub m21: int, pub m22: int, pub m23: int,
    pub m30: int, pub m31: int, pub m32: int, pub m33: int,
}

impl View for Mat4 {
    type V = SMat;

    open spec fn view(&self) -> SMat {
        SMat {
            m00: self.m00 as int,
            m01: self.m01 as int,
            m02: self.m02 as int,
            m03: self.m03 as int,
            m10: self.m10 as int,
            m11: self.m11 as int,
            m12: self.m12 as int,
            m13: self.m13 as int,
            m20: self.m20 as int,
            m21: self.m21 as int,
            m22: self.m22 as int,
            m23: self.m23 as int,
            m30: self.m30 as int,
            m31: self.m31 as int,
            m32: self.m32 as int,
            m33: self.m33 as int,
        }
    }
}

/// Fixed-point matrix product: each entry is the sum of the four
/// term-by-term fixed-point products of a row of `a` with a column of `b`.
pub open spec fn smat_mul(a: SMat, b: SMat) -> SMat {
    SMat {
        m00: fx_mul(a.m00, b.m00) + fx_mul(a.m10, b.m01) + fx_mul(a.m20, b.m02) + fx_mul(a.m30, b.m03),
        m01: fx_mul(a.m01, b.m00) + fx_mul(a.m11, b.m01) + fx_mul(a.m21, b.m02) + fx_mul(a.m31, b.m03),
        m02: fx_mul(a.m02, b.m00) + fx_mul(a.m12, b.m01) + fx_mul(a.m22, b.m02) + fx_mul(a.m32, b.m03),
        m03: fx_mul(a.m03, b.m00) + fx_mul(a.m13, b.m01) + fx_mul(a.m23, b.m02) + fx_mul(a.m33, b.m03),
        m10: fx_mul(a.m00, b.m10) + fx_mul(a.m10, b.m11) + fx_mul(a.m20, b.m12) + fx_mul(a.m30, b.m13),
        m11: fx_mul(a.m01, b.m10) + fx_mul(a.m11, b.m11) + fx_mul(a.m21, b.m12) + fx_mul(a.m31, b.m13),
        m12: fx_mul(a.m02, b.m10) + fx_mul(a.m12, b.m11) + fx_mul(a.m22, b.m12) + fx_mul(a.m32, b.m13),
        m13: fx_mul(a.m03, b.m10) + fx_mul(a.m13, b.m11) + fx_mul(a.m23, b.m12) + fx_mul(a.m33, b.m13),
        m20: fx_mul(a.m00, b.m20) + fx_mul(a.m10, b.m21) + fx_mul(a.m20, b.m22) + fx_mul(a.m30, b.m23),
        m21: fx_mul(a.m01, b.m20) + fx_mul(a.m11, b.m21) + fx_mul(a.m21, b.m22) + fx_mul(a.m31, b.m23),
        m22: fx_mul(a.m02, b.m20) + fx_mul(a.m12, b.m21) + fx_mul(a.m22, b.m22) + fx_mul(a.m32, b.m23),
        m23: fx_mul(a.m03, b.m20) + fx_mul(a.m13, b.m21) + fx_mul(a.m23, b.m22) + fx_mul(a.m33, b.m23),
        m30: fx_mul(a.m00, b.m30) + fx_mul(a.m10, b.m31) + fx_mul(a.m20, b.m32) + fx_mul(a.m30, b.m33),
        m31: fx_mul(a.m01, b.m30) + fx_mul(a.m11, b.m31) + fx_mul(a.m21, b.m32) + fx_mul(a.m31, b.m33),
        m32: fx_mul(a.m02, b.m30) + fx_mul(a.m12, b.m31) + fx_mul(a.m22, b.m32) + fx_mul(a.m32, b.m33),
        m33: fx_mul(a.m03, b.m30) + fx_mul(a.m13, b.m31) + fx_mul(a.m23, b.m32) + fx_mul(a.m33, b.m33),
    }
}

/// The identity matrix (diagonal of fixed-point ones).
pub open spec fn smat_identity() -> SMat {
    SMat { m00: 65536, m01: 0, m02: 0, m03: 0, m10: 0, m11: 65536, m12: 0, m13: 0, m20: 0, m21: 0, m22: 65536, m23: 0, m30: 0, m31: 0, m32: 0, m33: 65536, }
}

/// Every entry of `m` lies in `[-b, b]`.
pub open spec fn smat_bounded(m: SMat, b: int) -> bool {
    &&& -b <= m.m00 <= b &&& -b <= m.m01 <= b &&& -b <= m.m02 <= b &&& -b <= m.m03 <= b
    &&& -b <= m.m10 <= b &&& -b <= m.m11 <= b &&& -b <= m.m12 <= b &&& -b <= m.m13 <= b
    &&& -b <= m.m20 <= b &&& -b <= m.m21 <= b &&& -b <= m.m22 <= b &&& -b <= m.m23 <= b
    &&& -b <= m.m30 <= b &&& -b <= m.m31 <= b &&& -b <= m.m32 <= b &&& -b <= m.m33 <= b
}

/// Fixed-point multiplication together with a bound on the result, for
/// chaining products without overflow reasoning at every call site.
pub fn mul_fx_in(a: i64, b: i64, Ghost(ba): Ghost<int>, Ghost(bb): Ghost<int>) -> (r: i64)
    requires
        0 <= ba,
        0 <= bb,
        -ba <= a as int <= ba,
        -bb <= b as int <= bb,
        ba * bb <= 0x7FFF_FFFF_FFFF_FFFF,
    ensures
        r as int == fx_mul(a as int, b as int),
        -((ba * bb) / 65536) - 1 <= r as int <= (ba * bb) / 65536,
{
    proof {
        lemma_abs_mul_le(a as int, b as int, ba, bb);
        lemma_floor_div_bound((a as int) * (b as int), 65536, ba * bb);
    }
    mul_fx(a, b)
}

impl Mat4 {
    /// The identity transform.
    pub fn identity() -> (r: Mat4)
        ensures
            r@ == smat_identity(),
    {
        Mat4 { m00: FX_ONE, m01: 0, m02: 0, m03: 0, m10: 0, m11: FX_ONE, m12: 0, m13: 0, m20: 0, m21: 0, m22: FX_ONE, m23: 0, m30: 0, m31: 0, m32: 0, m33: FX_ONE, }
    }

    /// The fixed-point matrix product `self · other`, entry for entry the
    /// mathematical product of the shadows. The ghost bounds on the
    /// operands' entries yield a bound on the product's entries, so that
    /// products can be chained without overflow.
    pub fn matmul(&self, other: &Mat4, Ghost(ba): Ghost<int>, Ghost(bb): Ghost<int>) -> (r: Mat4)
        requires
            0 <= ba,
            0 <= bb,
            smat_bounded(self@, ba),
            smat_bounded(other@, bb),
            ba * bb <= 0x7FFF_FFFF_FFFF_FFFF,
        ensures
            r@ == smat_mul(self@, other@),
            smat_bounded(r@, 4 * ((ba * bb) / 65536 + 1)),
    {
        proof {
            assert(0 <= ba * bb) by (nonlinear_arith)
                requires 0 <= ba && 0 <= bb;
            lemma_div_pos_is_pos(ba * bb, 65536);
            lemma_div_is_ordered(ba * bb, 0x7FFF_FFFF_FFFF_FFFF, 65536);
        }
        let a = self;
        let b = other;
        let e00: i64 = mul_fx_in(a.m00, b.m00, Ghost(ba), Ghost(bb)) + mul_fx_in(a.m10, b.m01, Ghost(ba), Ghost(bb)) + mul_fx_in(a.m20, b.m02, Ghost(ba), Ghost(bb)) + mul_fx_in(a.m30, b.m03, Ghost(ba), Ghost(bb));
        let e01: i64 = mul_fx_in(a.m01, b.m00, Ghost(ba), Ghost(bb)) + mul_fx_in(a.m11, b.m01, Ghost(ba), Ghost(bb)) + mul_fx_in(a.m21, b.m02, Ghost(ba), Ghost(bb)) + mul_fx_in(a.m31, b.m03, Ghost(ba), Ghost(bb));
        let e02: i64 = mul_fx_in(a.m02, b.m00, Ghost(ba), Ghost(bb)) + mul_fx_in(a.m12, b.m01, Ghost(ba), Ghost(bb)) + mul_fx_in(a.m22, b.m02, Ghost(ba), Ghost(bb)) + mul_fx_in(a.m32, b.m03, Ghost(ba), Ghost(bb));
        let e03: i64 = mul_fx_in(a.m03, b.m00, Ghost(ba), Ghost(bb)) + mul_fx_in(a.m13, b.m01, Ghost(ba), Ghost(bb)) + mul_fx_in(a.m23, b.m02, Ghost(ba), Ghost(bb)) + mul_fx_in(a.m33, b.m03, Ghost(ba), Ghost(bb));
        let e10: i64 = mul_fx_in(a.m00, b.m10, Ghost(ba), Ghost(bb)) + mul_fx_in(a.m10, b.m11, Ghost(ba), Ghost(bb)) + mul_fx_in(a.m20, b.m12, Ghost(ba), Ghost(bb)) + mul_fx_in(a.m30, b.m13, Ghost(ba), Ghost(bb));
        let e11: i64 = mul_fx_in(a.m01, b.m10, Ghost(ba), Ghost(bb)) + mul_fx_in(a.m11, b.m11, Ghost(ba), Ghost(bb)) + mul_fx_in(a.m21, b.m12, Ghost(ba), Ghost(bb)) + mul_fx_in(a.m31, b.m13, Ghost(ba), Ghost(bb));
        let e12: i64 = mul_fx_in(a.m02, b.m10, Ghost(ba), Ghost(bb)) + mul_fx_in(a.m12, b.m11, Ghost(ba), Ghost(bb)) + mul_fx_in(a.m22, b.m12, Ghost(ba), Ghost(bb)) + mul_fx_in(a.m32, b.m13, Ghost(ba), Ghost(bb));
        let e13: i64 = mul_fx_in(a.m03, b.m10, Ghost(ba), Ghost(bb)) + mul_fx_in(a.m13, b.m11, Ghost(ba), Ghost(bb)) + mul_fx_in(a.m23, b.m12, Ghost(ba), Ghost(bb)) + mul_fx_in(a.m33, b.m13, Ghost(ba), Ghost(bb));
        let e20: i64 = mul_fx_in(a.m00, b.m20, Ghost(ba), Ghost(bb)) + mul_fx_in(a.m10, b.m21, Ghost(ba), Ghost(bb)) + mul_fx_in(a.m20, b.m22, Ghost(ba), Ghost(bb)) + mul_fx_in(a.m30, b.m23, Ghost(ba), Ghost(bb));
        let e21: i64 = mul_fx_in(a.m01, b.m20, Ghost(ba), Ghost(bb)) + mul_fx_in(a.m11, b.m21, Ghost(ba), Ghost(bb)) + mul_fx_in(a.m21, b.m22, Ghost(ba), Ghost(bb)) + mul_fx_in(a.m31, b.m23, Ghost(ba), Ghost(bb));
        let e22: i64 = mul_fx_in(a.m02, b.m20, Ghost(ba), Ghost(bb)) + mul_fx_in(a.m12, b.m21, Ghost(ba), Ghost(bb)) + mul_fx_in(a.m22, b.m22, Ghost(ba), Ghost(bb)) + mul_fx_in(a.m32, b.m23, Ghost(ba), Ghost(bb));
        let e23: i64 = mul_fx_in(a.m03, b.m20, Ghost(ba), Ghost(bb)) + mul_fx_in(a.m13, b.m21, Ghost(ba), Ghost(bb)) + mul_fx_in(a.m23, b.m22, Ghost(ba), Ghost(bb)) + mul_fx_in(a.m33, b.m23, Ghost(ba), Ghost(bb));
        let e30: i64 = mul_fx_in(a.m00, b.m30, Ghost(ba), Ghost(bb)) + mul_fx_in(a.m10, b.m31, Ghost(ba), Ghost(bb)) + mul_fx_in(a.m20, b.m32, Ghost(ba), Ghost(bb)) + mul_fx_in(a.m30, b.m33, Ghost(ba), Ghost(bb));
        let e31: i64 = mul_fx_in(a.m01, b.m30, Ghost(ba), Ghost(bb)) + mul_fx_in(a.m11, b.m31, Ghost(ba), Ghost(bb)) + mul_fx_in(a.m21, b.m32, Ghost(ba), Ghost(bb)) + mul_fx_in(a.m31, b.m33, Ghost(ba), Ghost(bb));
        let e32: i64 = mul_fx_in(a.m02, b.m30, Ghost(ba), Ghost(bb)) + mul_fx_in(a.m12, b.m31, Ghost(ba), Ghost(bb)) + mul_fx_in(a.m22, b.m32, Ghost(ba), Ghost(bb)) + mul_fx_in(a.m32, b.m33, Ghost(ba), Ghost(bb));
        let e33: i64 = mul_fx_in(a.m03, b.m30, Ghost(ba), Ghost(bb)) + mul_fx_in(a.m13, b.m31, Ghost(ba), Ghost(bb)) + mul_fx_in(a.m23, b.m32, Ghost(ba), Ghost(bb)) + mul_fx_in(a.m33, b.m33, Ghost(ba), Ghost(bb));
        Mat4 { m00: e00, m01: e01, m02: e02, m03: e03, m10: e10, m11: e11, m12: e12, m13: e13, m20: e20, m21: e21, m22: e22, m23: e23, m30: e30, m31: e31, m32: e32, m33: e33, }
    }
}

} // verus!
