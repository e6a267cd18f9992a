//! Signed 16.16 fixed-point numbers with saturating, total arithmetic.
//!
//! Every operation clips its result to `[-FX_MAX, FX_MAX]` and is therefore
//! total: no operation overflows or panics, and each has an exact
//! specification over the mathematical integers.

use vstd::arithmetic::div_mod::lemma_div_is_ordered;
use vstd::arithmetic::mul::lemma_mul_inequality;
use vstd::prelude::*;

verus! {

/// Raw value of 1.0: the scale of the fixed-point representation.
pub const FX_ONE: i64 = 65536;
/// Largest representable raw value; negation is always safe.
pub const FX_MAX: i64 = 9223372036854775807;
/// Raw value of 0.5.
pub const FX_HALF: i64 = 32768;
/// Raw value of 2.0.
pub const FX_TWO: i64 = 131072;
/// Raw value of 4.0.
pub const FX_FOUR: i64 = 262144;
/// Raw value of pi, rounded to nearest.
pub const FX_PI: i64 = 205887;
/// Raw value of 2 * pi, rounded to nearest.
pub const FX_TWO_PI: i64 = 411775;
/// Raw value of pi / 2, rounded to nearest.
pub const FX_HALF_PI: i64 = 102944;
/// Raw value of 1 / pi, rounded to nearest.
pub const FX_INV_PI: i64 = 20861;
/// Raw value of 0.1, rounded to nearest.
pub const FX_TENTH: i64 = 6554;

/// A fixed-point number; the represented value is `raw / 65536`.
#[derive(Clone, Copy, Debug, PartialEq, Eq, Structural)]
pub struct Fx {
    pub raw: i64,
}

impl View for Fx {
    type V = int;

    open spec fn view(&self) -> int {
        self.raw as int
    }
}

/// Clip to the symmetric representable range.
pub open spec fn fx_clip(v: int) -> int {
    if v > FX_MAX {
        FX_MAX as int
    } else if v < -(FX_MAX as int) {
        -(FX_MAX as int)
    } else {
        v
    }
}

/// Absolute value on the mathematical integers.
pub open spec fn iabs(v: int) -> int {
    if v < 0 {
        -v
    } else {
        v
    }
}

pub open spec fn fx_add_s(a: int, b: int) -> int {
    fx_clip(a + b)
}

pub open spec fn fx_sub_s(a: int, b: int) -> int {
    fx_clip(a - b)
}

pub open spec fn fx_neg_s(a: int) -> int {
    fx_clip(-a)
}

pub open spec fn fx_min_s(a: int, b: int) -> int {
    if a <= b {
        a
    } else {
        b
    }
}

pub open spec fn fx_max_s(a: int, b: int) -> int {
    if a >= b {
        a
    } else {
        b
    }
}

pub open spec fn fx_abs_s(a: int) -> int {
    fx_clip(iabs(a))
}

/// Fixed-point product: magnitudes are multiplied, scaled down by `FX_ONE`
/// rounding toward zero, clipped, and given the sign of the exact product.
pub open spec fn fx_mul_s(a: int, b: int) -> int {
    if a == 0 || b == 0 {
        0
    } else {
        let m = fx_clip((iabs(a) * iabs(b)) / (FX_ONE as int));
        if (a < 0) != (b < 0) {
            -m
        } else {
            m
        }
    }
}

/// Fixed-point quotient, rounding toward zero and clipped. Division by zero
/// saturates to the signed extreme, so the operation is total.
pub open spec fn fx_div_s(a: int, b: int) -> int {
    if b == 0 {
        if a == 0 {
            0
        } else if a < 0 {
            -(FX_MAX as int)
        } else {
            FX_MAX as int
        }
    } else {
        let m = fx_clip((iabs(a) * (FX_ONE as int)) / iabs(b));
        if (a < 0) != (b < 0) {
            -m
        } else {
            m
        }
    }
}

/// Conversion from an integer value, clipped.
pub open spec fn fx_from_int_s(v: int) -> int {
    fx_clip(v * (FX_ONE as int))
}

/// Integer square root: the largest `r` with `r * r <= n`.
pub open spec fn isqrt_s(n: int) -> int
    decreases n,
{
    if n <= 0 {
        0
    } else {
        let r = isqrt_s(n - 1);
        if (r + 1) * (r + 1) <= n {
            r + 1
        } else {
            r
        }
    }
}

/// Fixed-point square root; negative inputs are treated as zero.
pub open spec fn fx_sqrt_s(a: int) -> int {
    if a <= 0 {
        0
    } else {
        isqrt_s(a * (FX_ONE as int))
    }
}

/// Fixed-point power with a natural exponent, folded from the left.
pub open spec fn fx_pow_s(b: int, e: nat) -> int
    decreases e,
{
    if e == 0 {
        FX_ONE as int
    } else {
        fx_mul_s(b, fx_pow_s(b, (e - 1) as nat))
    }
}

/// `r` is the largest fixed-point value in `[0, 1]` whose `n`-th fixed-point
/// power does not exceed `x`.
pub open spec fn fx_root_ok(x: int, n: nat, r: int) -> bool {
    0 <= r <= FX_ONE && fx_pow_s(r, n) <= x && (r == FX_ONE || x < fx_pow_s(r + 1, n))
}

/// The `n`-th fixed-point root of `x` in `[0, 1]`, characterised by
/// `fx_root_ok`; `lemma_fx_root_unique` shows there is at most one such value.
pub open spec fn fx_root_s(x: int, n: nat) -> int {
    choose|r: int| fx_root_ok(x, n, r)
}

/// Rational approximation of the sine on `[0, pi]` (Bhaskara's formula):
/// `16 t (pi - t) / (5 pi^2 - 4 t (pi - t))`, in fixed point.
pub open spec fn bhaskara_s(t: int) -> int {
    let u = fx_mul_s(t, fx_sub_s(FX_PI as int, t));
    fx_div_s(
        fx_mul_s(fx_from_int_s(16), u),
        fx_sub_s(fx_mul_s(fx_from_int_s(5), fx_mul_s(FX_PI as int, FX_PI as int)), fx_mul_s(fx_from_int_s(4), u)),
    )
}

/// Approximate sine on `[0, 2 pi]`: Bhaskara's formula on `[0, pi]`, its
/// negation on `[pi, 2 pi]`.
pub open spec fn fx_sin_s(t: int) -> int {
    if t <= FX_PI {
        bhaskara_s(t)
    } else {
        fx_neg_s(bhaskara_s(fx_sub_s(t, FX_PI as int)))
    }
}

/// Approximate cosine on `[0, 2 pi]` via the shifted sine.
pub open spec fn fx_cos_s(t: int) -> int {
    let u = fx_add_s(t, FX_HALF_PI as int);
    if u <= FX_TWO_PI {
        fx_sin_s(u)
    } else {
        fx_sin_s(fx_sub_s(u, FX_TWO_PI as int))
    }
}

/// Magnitude of a raw value as an unsigned integer; total, also at the
/// minimum raw value.
fn abs_mag(a: i64) -> (r: u64)
    ensures
        r as int == iabs(a as int),
{
    if a < 0 {
        let w: i128 = -(a as i128);
        w as u64
    } else {
        a as u64
    }
}

/// Clip a magnitude to the representable range and attach a sign.
fn clip_sign(mag: u128, neg: bool) -> (r: i64)
    ensures
        r as int == if neg {
            -fx_clip(mag as int)
        } else {
            fx_clip(mag as int)
        },
{
    let m: u128 = if mag > (FX_MAX as u128) {
        FX_MAX as u128
    } else {
        mag
    };
    let mi: i64 = m as i64;
    if neg {
        -mi
    } else {
        mi
    }
}

pub fn fx_from_int(v: i64) -> (r: Fx)
    ensures
        r@ == fx_from_int_s(v as int),
{
    proof {
        assert(-604462909807314587353088 <= (v as int) * (FX_ONE as int) <= 604462909807314587353088)
            by (nonlinear_arith)
            requires
                -9223372036854775808 <= v as int <= 9223372036854775807,
        ;
    }
    let w: i128 = (v as i128) * (FX_ONE as i128);
    let c: i128 = if w > (FX_MAX as i128) {
        FX_MAX as i128
    } else if w < -(FX_MAX as i128) {
        -(FX_MAX as i128)
    } else {
        w
    };
    Fx { raw: c as i64 }
}

pub fn fx_add(a: Fx, b: Fx) -> (r: Fx)
    ensures
        r@ == fx_add_s(a@, b@),
{
    let s: i128 = (a.raw as i128) + (b.raw as i128);
    let c: i128 = if s > (FX_MAX as i128) {
        FX_MAX as i128
    } else if s < -(FX_MAX as i128) {
        -(FX_MAX as i128)
    } else {
        s
    };
    Fx { raw: c as i64 }
}

pub fn fx_sub(a: Fx, b: Fx) -> (r: Fx)
    ensures
        r@ == fx_sub_s(a@, b@),
{
    let s: i128 = (a.raw as i128) - (b.raw as i128);
    let c: i128 = if s > (FX_MAX as i128) {
        FX_MAX as i128
    } else if s < -(FX_MAX as i128) {
        -(FX_MAX as i128)
    } else {
        s
    };
    Fx { raw: c as i64 }
}

pub fn fx_neg(a: Fx) -> (r: Fx)
    ensures
        r@ == fx_neg_s(a@),
{
    let s: i128 = -(a.raw as i128);
    let c: i128 = if s > (FX_MAX as i128) {
        FX_MAX as i128
    } else {
        s
    };
    Fx { raw: c as i64 }
}

pub fn fx_min(a: Fx, b: Fx) -> (r: Fx)
    ensures
        r@ == fx_min_s(a@, b@),
{
    if a.raw <= b.raw {
        a
    } else {
        b
    }
}

pub fn fx_max(a: Fx, b: Fx) -> (r: Fx)
    ensures
        r@ == fx_max_s(a@, b@),
{
    if a.raw >= b.raw {
        a
    } else {
        b
    }
}

pub fn fx_abs(a: Fx) -> (r: Fx)
    ensures
        r@ == fx_abs_s(a@),
{
    if a.raw < 0 {
        fx_neg(a)
    } else {
        a
    }
}

pub fn fx_mul(a: Fx, b: Fx) -> (r: Fx)
    ensures
        r@ == fx_mul_s(a@, b@),
{
    let am: u64 = abs_mag(a.raw);
    let bm: u64 = abs_mag(b.raw);
    proof {
        assert((am as int) * (bm as int) <= 85070591730234615865843651857942052864)
            by (nonlinear_arith)
            requires
                am as int <= 9223372036854775808,
                bm as int <= 9223372036854775808,
        ;
    }
    let p: u128 = ((am as u128) * (bm as u128)) / (FX_ONE as u128);
    if a.raw == 0 || b.raw == 0 {
        Fx { raw: 0 }
    } else {
        Fx { raw: clip_sign(p, (a.raw < 0) != (b.raw < 0)) }
    }
}

pub fn fx_div(a: Fx, b: Fx) -> (r: Fx)
    ensures
        r@ == fx_div_s(a@, b@),
{
    if b.raw == 0 {
        if a.raw == 0 {
            Fx { raw: 0 }
        } else if a.raw < 0 {
            Fx { raw: -FX_MAX }
        } else {
            Fx { raw: FX_MAX }
        }
    } else {
        let am: u64 = abs_mag(a.raw);
        let bm: u64 = abs_mag(b.raw);
        proof {
            assert((am as int) * (FX_ONE as int) <= 604462909807314587353088)
                by (nonlinear_arith)
                requires
                    am as int <= 9223372036854775808,
            ;
        }
        let p: u128 = ((am as u128) * (FX_ONE as u128)) / (bm as u128);
        Fx { raw: clip_sign(p, (a.raw < 0) != (b.raw < 0)) }
    }
}

/// The recursive `isqrt_s` really is the integer square root.
proof fn lemma_isqrt_bounds(n: int)
    requires
        n >= 0,
    ensures
        0 <= isqrt_s(n),
        isqrt_s(n) * isqrt_s(n) <= n,
        n < (isqrt_s(n) + 1) * (isqrt_s(n) + 1),
    decreases n,
{
    if n <= 0 {
    } else {
        lemma_isqrt_bounds(n - 1);
        let r = isqrt_s(n - 1);
        assert(r * r <= n - 1);
        assert(n - 1 < (r + 1) * (r + 1));
        if (r + 1) * (r + 1) <= n {
            assert(isqrt_s(n) == r + 1);
            assert(n < ((r + 1) + 1) * ((r + 1) + 1)) by (nonlinear_arith)
                requires
                    n - 1 < (r + 1) * (r + 1),
                    (r + 1) * (r + 1) <= n,
                    0 <= r,
            ;
        } else {
            assert(isqrt_s(n) == r);
            assert(n < (r + 1) * (r + 1));
        }
    }
}

proof fn lemma_isqrt_unique(n: int, r: int)
    requires
        0 <= r,
        r * r <= n,
        n < (r + 1) * (r + 1),
    ensures
        r == isqrt_s(n),
{
    lemma_isqrt_bounds(n);
    let q = isqrt_s(n);
    if r < q {
        assert(false) by (nonlinear_arith)
            requires
                0 <= r < q,
                q * q <= n,
                n < (r + 1) * (r + 1),
        ;
    }
    if q < r {
        assert(false) by (nonlinear_arith)
            requires
                0 <= q < r,
                r * r <= n,
                n < (q + 1) * (q + 1),
        ;
    }
}

pub fn fx_sqrt(a: Fx) -> (r: Fx)
    ensures
        r@ == fx_sqrt_s(a@),
{
    if a.raw <= 0 {
        Fx { raw: 0 }
    } else {
        proof {
            assert((a.raw as int) * (FX_ONE as int) < 1099511627776 * 1099511627776)
                by (nonlinear_arith)
                requires
                    0 < a.raw as int <= 9223372036854775807,
            ;
        }
        let n: u128 = (a.raw as u128) * (FX_ONE as u128);
        let mut lo: u128 = 0;
        let mut hi: u128 = 1099511627776;
        assert(n < hi * hi) by (nonlinear_arith)
            requires
                n < 1099511627776 * 1099511627776,
                hi == 1099511627776,
        ;
        while lo + 1 < hi
            invariant
                lo < hi <= 1099511627776,
                lo * lo <= n,
                n < hi * hi,
            decreases hi - lo,
        {
            let mid: u128 = lo + (hi - lo) / 2;
            assert(mid * mid <= 1099511627776u128 * 1099511627776) by (nonlinear_arith)
                requires
                    mid <= 1099511627776,
            ;
            if mid * mid <= n {
                lo = mid;
            } else {
                hi = mid;
            }
        }
        proof {
            lemma_isqrt_unique(n as int, lo as int);
        }
        Fx { raw: lo as i64 }
    }
}

/// Once a fixed-point power reaches zero it stays zero.
proof fn lemma_fx_pow_zero(b: int, i: nat, e: nat)
    requires
        i <= e,
        fx_pow_s(b, i) == 0,
    ensures
        fx_pow_s(b, e) == 0,
    decreases e,
{
    if e > i {
        lemma_fx_pow_zero(b, i, (e - 1) as nat);
        assert(fx_pow_s(b, e) == fx_mul_s(b, fx_pow_s(b, (e - 1) as nat)));
    }
}

pub fn fx_pow(b: Fx, e: u64) -> (r: Fx)
    ensures
        r@ == fx_pow_s(b@, e as nat),
{
    let mut acc = Fx { raw: FX_ONE };
    let mut i: u64 = 0;
    while i < e
        invariant
            i <= e,
            acc@ == fx_pow_s(b@, i as nat),
        decreases e - i,
    {
        acc = fx_mul(b, acc);
        i = i + 1;
        if acc.raw == 0 {
            proof {
                lemma_fx_pow_zero(b@, i as nat, e as nat);
            }
            return acc;
        }
    }
    acc
}

/// Monotonicity of the fixed-point product in its first factor, for
/// non-negative operands.
pub proof fn lemma_fx_mul_mono(a1: int, a2: int, b: int)
    requires
        0 <= a1 <= a2,
        0 <= b,
    ensures
        0 <= fx_mul_s(a1, b) <= fx_mul_s(a2, b),
{
    if b == 0 || a2 == 0 {
    } else {
        lemma_mul_inequality(0, a2, b);
        lemma_div_is_ordered(0, a2 * b, FX_ONE as int);
        if a1 != 0 {
            lemma_mul_inequality(0, a1, b);
            lemma_mul_inequality(a1, a2, b);
            lemma_div_is_ordered(0, a1 * b, FX_ONE as int);
            lemma_div_is_ordered(a1 * b, a2 * b, FX_ONE as int);
        }
    }
}

pub proof fn lemma_fx_mul_comm(a: int, b: int)
    ensures
        fx_mul_s(a, b) == fx_mul_s(b, a),
{
    assert(iabs(a) * iabs(b) == iabs(b) * iabs(a)) by (nonlinear_arith);
}

/// Multiplying by a factor in `[0, 1]` shrinks a bounded non-negative value.
pub proof fn lemma_fx_mul_unit(k: int, x: int)
    requires
        0 <= x <= FX_ONE,
        0 <= k <= FX_MAX,
    ensures
        0 <= fx_mul_s(k, x) <= k,
        0 <= fx_mul_s(x, k) <= k,
{
    lemma_fx_mul_comm(k, x);
    lemma_fx_mul_mono(x, FX_ONE as int, k);
    if k != 0 {
        vstd::arithmetic::div_mod::lemma_div_multiples_vanish(k, FX_ONE as int);
        assert(iabs(FX_ONE as int) * iabs(k) == (FX_ONE as int) * k) by (nonlinear_arith)
            requires
                k >= 0,
        ;
    }
}

/// Monotonicity of the fixed-point power in its base, for non-negative bases.
proof fn lemma_fx_pow_mono(b1: int, b2: int, e: nat)
    requires
        0 <= b1 <= b2,
    ensures
        0 <= fx_pow_s(b1, e) <= fx_pow_s(b2, e),
    decreases e,
{
    if e > 0 {
        lemma_fx_pow_mono(b1, b2, (e - 1) as nat);
        let p1 = fx_pow_s(b1, (e - 1) as nat);
        let p2 = fx_pow_s(b2, (e - 1) as nat);
        lemma_fx_mul_mono(b1, b2, p1);
        lemma_fx_mul_comm(b1, p1);
        lemma_fx_mul_comm(b2, p1);
        lemma_fx_mul_comm(b2, p2);
        lemma_fx_mul_mono(p1, p2, b2);
    }
}

/// There is at most one value satisfying `fx_root_ok`.
proof fn lemma_fx_root_unique(x: int, n: nat, r1: int, r2: int)
    requires
        fx_root_ok(x, n, r1),
        fx_root_ok(x, n, r2),
    ensures
        r1 == r2,
{
    if r1 < r2 {
        lemma_fx_pow_mono(r1 + 1, r2, n);
    }
    if r2 < r1 {
        lemma_fx_pow_mono(r2 + 1, r1, n);
    }
}

/// The largest fixed-point value in `[0, 1]` whose `n`-th power does not
/// exceed `x`; used for power-cosine importance sampling.
pub fn fx_root(x: Fx, n: u64) -> (r: Fx)
    requires
        n >= 1,
        0 <= x@ <= FX_ONE,
    ensures
        r@ == fx_root_s(x@, n as nat),
        fx_root_ok(x@, n as nat, r@),
{
    let mut lo: i64 = 0;
    let mut hi: i64 = FX_ONE + 1;
    proof {
        assert(fx_pow_s(0, n as nat) == fx_mul_s(0, fx_pow_s(0, (n - 1) as nat)));
    }
    while lo + 1 < hi
        invariant
            0 <= lo < hi <= FX_ONE + 1,
            fx_pow_s(lo as int, n as nat) <= x@,
            hi == FX_ONE + 1 || x@ < fx_pow_s(hi as int, n as nat),
        decreases hi - lo,
    {
        let mid: i64 = lo + (hi - lo) / 2;
        let p = fx_pow(Fx { raw: mid }, n);
        if p.raw <= x.raw {
            lo = mid;
        } else {
            hi = mid;
        }
    }
    proof {
        assert(fx_root_ok(x@, n as nat, lo as int));
        assert(exists|r: int| fx_root_ok(x@, n as nat, r));
        lemma_fx_root_unique(x@, n as nat, lo as int, fx_root_s(x@, n as nat));
    }
    Fx { raw: lo }
}

pub fn fx_sin(t: Fx) -> (r: Fx)
    requires
        0 <= t@ <= FX_TWO_PI,
    ensures
        r@ == fx_sin_s(t@),
{
    if t.raw <= FX_PI {
        bhaskara(t)
    } else {
        fx_neg(bhaskara(fx_sub(t, Fx { raw: FX_PI })))
    }
}

pub fn fx_cos(t: Fx) -> (r: Fx)
    requires
        0 <= t@ <= FX_TWO_PI,
    ensures
        r@ == fx_cos_s(t@),
{
    let u = fx_add(t, Fx { raw: FX_HALF_PI });
    if u.raw <= FX_TWO_PI {
        fx_sin(u)
    } else {
        fx_sin(fx_sub(u, Fx { raw: FX_TWO_PI }))
    }
}

fn bhaskara(t: Fx) -> (r: Fx)
    ensures
        r@ == bhaskara_s(t@),
{
    let u = fx_mul(t, fx_sub(Fx { raw: FX_PI }, t));
    fx_div(
        fx_mul(fx_from_int(16), u),
        fx_sub(fx_mul(fx_from_int(5), fx_mul(Fx { raw: FX_PI }, Fx { raw: FX_PI })), fx_mul(fx_from_int(4), u)),
    )
}

} // verus!
