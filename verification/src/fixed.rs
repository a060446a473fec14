//! Fixed-point scalars. Every fractional quantity of the engine (sprite
//! positions, scales, rotation cosines, matrix entries) is an `i64` carrying
//! 16 fractional bits, so all transform arithmetic is exact integer
//! arithmetic and can be reasoned about precisely.

use vstd::prelude::*;
use vstd::arithmetic::div_mod::{
    lemma_fundamental_div_mod, lemma_fundamental_div_mod_converse_div, lemma_div_is_ordered,
};

verus! {

/// The fixed-point unit: the representation of the real number 1.
pub const FX_ONE: i64 = 65536;

/// Fixed-point product: the double-width product scaled back down, rounded
/// toward negative infinity (`/` on `int` is Euclidean; the divisor is
/// positive, so the quotient is the floor).
pub open spec fn fx_mul(a: int, b: int) -> int {
    (a * b) / 65536
}

/// Fixed-point quotient: the dividend scaled up before the division,
/// rounded toward negative infinity.
pub open spec fn fx_div(a: int, b: int) -> int
    recommends
        b > 0,
{
    (a * 65536) / b
}

/// Euclidean division of a negative dividend `-m` by a positive divisor,
/// written in terms of the division of `m` itself.
pub proof fn lemma_div_neg(m: int, d: int)
    requires
        d > 0,
        0 <= m,
    ensures
        (-m) / d == if m % d == 0 { -(m / d) } else { -(m / d) - 1 },
{
    let k = m / d;
    let r = m % d;
    lemma_fundamental_div_mod(m, d);
    if r == 0 {
        assert(-m == d * (-k) + 0) by (nonlinear_arith)
            requires m == d * k + r && r == 0;
        lemma_fundamental_div_mod_converse_div(-m, d, -k, 0);
    } else {
        assert(-m == d * (-(k + 1)) + (d - r)) by (nonlinear_arith)
            requires m == d * k + r;
        lemma_fundamental_div_mod_converse_div(-m, d, -(k + 1), d - r);
    }
}

/// A bound on both factors bounds the product.
pub proof fn lemma_abs_mul_le(a: int, b: int, ba: int, bb: int)
    by (nonlinear_arith)
    requires
        -ba <= a <= ba,
        -bb <= b <= bb,
        0 <= ba,
        0 <= bb,
    ensures
        -(ba * bb) <= a * b <= ba * bb,
{
}

/// A bound on the dividend bounds a floor quotient by a positive divisor.
pub proof fn lemma_floor_div_bound(p: int, d: int, m: int)
    requires
        d > 0,
        0 <= m,
        -m <= p <= m,
    ensures
        -(m / d) - 1 <= p / d <= m / d,
{
    lemma_div_is_ordered(p, m, d);
    lemma_div_is_ordered(-m, p, d);
    lemma_div_neg(m, d);
}

/// Division by a positive divisor, rounded toward negative infinity, on
/// machine integers. (Rust's own signed `/` rounds toward zero instead.)
fn floor_div(p: i64, d: i64) -> (r: i64)
    requires
        d > 0,
        p > i64::MIN,
    ensures
        r as int == p as int / d as int,
{
    if p >= 0 {
        ((p as u64) / (d as u64)) as i64
    } else {
        let m: u64 = (-p) as u64;
        let du: u64 = d as u64;
        let k: u64 = m / du;
        let rem: u64 = m % du;
        proof {
            lemma_fundamental_div_mod(m as int, du as int);
            lemma_div_neg(m as int, d as int);
            assert(p as int == -(m as int));
            if rem != 0 {
                assert(k as int <= (du as int) * (k as int)) by (nonlinear_arith)
                    requires 1 <= du as int && 0 <= k as int;
            }
        }
        if rem == 0 {
            -(k as i64)
        } else {
            -((k + 1) as i64)
        }
    }
}

/// Fixed-point multiplication on machine integers. The bound on the raw
/// product keeps every intermediate value inside `i64`.
pub fn mul_fx(a: i64, b: i64) -> (r: i64)
    requires
        -0x7FFF_FFFF_FFFF_FFFF <= (a as int) * (b as int) <= 0x7FFF_FFFF_FFFF_FFFF,
    ensures
        r as int == fx_mul(a as int, b as int),
{
    let p: i64 = a * b;
    floor_div(p, FX_ONE)
}

/// Fixed-point division on machine integers; the divisor must be positive.
pub fn div_fx(a: i64, b: i64) -> (r: i64)
    requires
        b > 0,
        -0x4000_0000_0000 < a < 0x4000_0000_0000,
    ensures
        r as int == fx_div(a as int, b as int),
{
    let p: i64 = a * FX_ONE;
    floor_div(p, b)
}

/// Multiplying by the unit changes nothing, in either position.
pub proof fn lemma_fx_mul_unit(a: int)
    ensures
        fx_mul(a, 65536) == a,
        fx_mul(65536, a) == a,
        fx_mul(a, 0) == 0,
        fx_mul(0, a) == 0,
{
    assert(a * 65536 == 65536 * a) by (nonlinear_arith);
    assert((a * 65536) / 65536 == a) by {
        lemma_fundamental_div_mod_converse_div(a * 65536, 65536, a, 0);
        assert(a * 65536 == 65536 * a + 0) by (nonlinear_arith);
    };
    assert((0int * 65536) / 65536 == 0) by {
        lemma_fundamental_div_mod_converse_div(0, 65536, 0, 0);
    };
    assert(a * 0 == 0) by (nonlinear_arith);
    assert(0int * a == 0) by (nonlinear_arith);
}

} // verus!
