//! Fixed-point three-dimensional vector arithmetic.
//!
//! A world unit is `SCALE` subunits; every coordinate, axis component and
//! force component in the crate is an `i64` count of subunits, so all the
//! geometry stays exact integer arithmetic.

use vstd::prelude::*;

verus! {

use vstd::arithmetic::div_mod::lemma_div_is_ordered;
use vstd::arithmetic::div_mod::lemma_div_multiples_vanish;
use vstd::arithmetic::div_mod::lemma_div_pos_is_pos;
use vstd::arithmetic::div_mod::lemma_div_nonincreasing;

/// Subunits per world unit.
pub const SCALE: i64 = 1000;

/// Component bound under which addition and subtraction cannot overflow.
pub const SUM_MAX: i64 = 0x1000_0000_0000_0000;

/// Component bound under which products of two components cannot overflow.
pub const MUL_MAX: i64 = 0x4000_0000;

/// A three-dimensional vector in fixed-point subunits.
#[derive(Clone, Copy, PartialEq, Eq, Structural, Debug)]
pub struct Vec3Fix {
    pub x: i64,
    pub y: i64,
    pub z: i64,
}

impl Vec3Fix {
    /// Every component lies in `[-bound, bound]`.
    pub open spec fn within(self, bound: int) -> bool {
        &&& -bound <= self.x <= bound
        &&& -bound <= self.y <= bound
        &&& -bound <= self.z <= bound
    }

    /// All three components are zero.
    pub open spec fn is_zero(self) -> bool {
        self.x == 0 && self.y == 0 && self.z == 0
    }
}

/// A product of two magnitude-bounded factors is magnitude-bounded.
pub proof fn lemma_mul_bound(a: int, b: int, m: int)
    requires
        0 <= m,
        -m <= a <= m,
        -m <= b <= m,
    ensures
        -(m * m) <= a * b <= m * m,
{
    assert(-(m * m) <= a * b <= m * m) by (nonlinear_arith)
        requires
            0 <= m,
            -m <= a <= m,
            -m <= b <= m,
    ;
}

/// A product of two factors with distinct magnitude bounds is bounded by the
/// product of the bounds.
pub proof fn lemma_mul_bound2(a: int, b: int, ma: int, mb: int)
    requires
        0 <= ma,
        0 <= mb,
        -ma <= a <= ma,
        -mb <= b <= mb,
    ensures
        -(ma * mb) <= a * b <= ma * mb,
{
    assert(-(ma * mb) <= a * b <= ma * mb) by (nonlinear_arith)
        requires
            0 <= ma,
            0 <= mb,
            -ma <= a <= ma,
            -mb <= b <= mb,
    ;
}

/// Componentwise sum.
pub fn vec_add(a: Vec3Fix, b: Vec3Fix) -> (r: Vec3Fix)
    requires
        a.within(SUM_MAX as int),
        b.within(SUM_MAX as int),
    ensures
        r.x == a.x + b.x,
        r.y == a.y + b.y,
        r.z == a.z + b.z,
{
    Vec3Fix { x: a.x + b.x, y: a.y + b.y, z: a.z + b.z }
}

/// Componentwise difference.
pub fn vec_sub(a: Vec3Fix, b: Vec3Fix) -> (r: Vec3Fix)
    requires
        a.within(SUM_MAX as int),
        b.within(SUM_MAX as int),
    ensures
        r.x == a.x - b.x,
        r.y == a.y - b.y,
        r.z == a.z - b.z,
{
    Vec3Fix { x: a.x - b.x, y: a.y - b.y, z: a.z - b.z }
}

/// The cross product `a x b` in spec form, componentwise.
pub open spec fn cross_x(a: Vec3Fix, b: Vec3Fix) -> int {
    a.y * b.z - a.z * b.y
}

/// See `cross_x`.
pub open spec fn cross_y(a: Vec3Fix, b: Vec3Fix) -> int {
    a.z * b.x - a.x * b.z
}

/// See `cross_x`.
pub open spec fn cross_z(a: Vec3Fix, b: Vec3Fix) -> int {
    a.x * b.y - a.y * b.x
}

/// Cross product of two fixed-point vectors; the result keeps the product
/// scale (subunits squared) and is rescaled by the caller where needed.
pub fn vec_cross(a: Vec3Fix, b: Vec3Fix) -> (r: Vec3Fix)
    requires
        a.within(MUL_MAX as int),
        b.within(MUL_MAX as int),
    ensures
        r.x == cross_x(a, b),
        r.y == cross_y(a, b),
        r.z == cross_z(a, b),
{
    proof {
        lemma_mul_bound(a.x as int, b.y as int, MUL_MAX as int);
        lemma_mul_bound(a.x as int, b.z as int, MUL_MAX as int);
        lemma_mul_bound(a.y as int, b.x as int, MUL_MAX as int);
        lemma_mul_bound(a.y as int, b.z as int, MUL_MAX as int);
        lemma_mul_bound(a.z as int, b.x as int, MUL_MAX as int);
        lemma_mul_bound(a.z as int, b.y as int, MUL_MAX as int);
    }
    Vec3Fix {
        x: a.y * b.z - a.z * b.y,
        y: a.z * b.x - a.x * b.z,
        z: a.x * b.y - a.y * b.x,
    }
}

/// Squared Euclidean norm, in spec form.
pub open spec fn norm_sq(a: Vec3Fix) -> int {
    a.x * a.x + a.y * a.y + a.z * a.z
}

/// Quotient of truncating division (the way hardware divides signed
/// integers): the Euclidean quotient of the magnitudes, carrying the sign of
/// the dividend.
pub open spec fn div_trunc(n: int, d: int) -> int {
    if n >= 0 {
        n / d
    } else {
        -((-n) / d)
    }
}

/// Integer square root: the unique `r` with `r * r <= n < (r + 1) * (r + 1)`.
pub open spec fn isqrt_spec(n: nat) -> nat
    decreases n,
{
    if n == 0 {
        0
    } else {
        let r = isqrt_spec((n - 1) as nat);
        if (r + 1) * (r + 1) <= n {
            r + 1
        } else {
            r
        }
    }
}

/// The defining bounds of `isqrt_spec`.
pub proof fn lemma_isqrt_bounds(n: nat)
    ensures
        isqrt_spec(n) * isqrt_spec(n) <= n,
        n < (isqrt_spec(n) + 1) * (isqrt_spec(n) + 1),
    decreases n,
{
    if n == 0 {
        let s = isqrt_spec(n);
        assert(s == 0);
        assert(n < (s + 1) * (s + 1)) by (nonlinear_arith)
            requires
                n == 0,
                s == 0,
        ;
    } else {
        lemma_isqrt_bounds((n - 1) as nat);
        let r = isqrt_spec((n - 1) as nat);
        let s = isqrt_spec(n);
        if (r + 1) * (r + 1) <= n {
            assert(s == r + 1);
            assert(s * s <= n && n < (s + 1) * (s + 1)) by (nonlinear_arith)
                requires
                    s == r + 1,
                    (r + 1) * (r + 1) <= n,
                    n - 1 < (r + 1) * (r + 1),
                    0 <= r,
            ;
        } else {
            assert(s == r);
            assert(s * s <= n && n < (s + 1) * (s + 1)) by (nonlinear_arith)
                requires
                    s == r,
                    r * r <= n - 1,
                    !((r + 1) * (r + 1) <= n),
                    0 <= r,
            ;
        }
    }
}

/// No two distinct values satisfy the `isqrt_spec` bounds.
pub proof fn lemma_isqrt_unique(n: nat, r: nat)
    requires
        r * r <= n,
        n < (r + 1) * (r + 1),
    ensures
        r == isqrt_spec(n),
{
    let s = isqrt_spec(n);
    lemma_isqrt_bounds(n);
    if r < s {
        assert((r + 1) * (r + 1) <= s * s) by (nonlinear_arith)
            requires
                0 <= r,
                r + 1 <= s,
        ;
    }
    if s < r {
        assert((s + 1) * (s + 1) <= r * r) by (nonlinear_arith)
            requires
                0 <= s,
                s + 1 <= r,
        ;
    }
}

/// A square root is at least as large as any single coordinate whose square
/// is under the radicand.
pub proof fn lemma_isqrt_dominates(n: nat, a: int)
    requires
        a * a <= n,
        0 <= a,
    ensures
        a <= isqrt_spec(n),
{
    lemma_isqrt_bounds(n);
    let r = isqrt_spec(n);
    if r < a {
        assert(a * a >= (r + 1) * (r + 1)) by (nonlinear_arith)
            requires
                0 <= r,
                r + 1 <= a,
        ;
    }
}

/// Binary-search integer square root.
pub fn isqrt64(n: u64) -> (r: u64)
    requires
        n < 0x4000_0000_0000_0000,
    ensures
        r == isqrt_spec(n as nat),
        r * r <= n,
        n < (r + 1) * (r + 1),
{
    let mut lo: u64 = 0;
    let mut hi: u64 = 0x8000_0000;
    while lo + 1 < hi
        invariant
            lo < hi <= 0x8000_0000,
            lo * lo <= n,
            n < hi * hi,
            n < 0x4000_0000_0000_0000,
        decreases hi - lo,
    {
        let mid: u64 = lo + (hi - lo) / 2;
        proof {
            lemma_mul_bound(mid as int, mid as int, 0x8000_0000);
        }
        if mid * mid <= n {
            lo = mid;
        } else {
            hi = mid;
        }
    }
    proof {
        lemma_isqrt_unique(n as nat, lo as nat);
    }
    lo
}

/// Truncating division of a signed dividend by a positive divisor.
pub fn div_units(n: i64, d: u64) -> (q: i64)
    requires
        d > 0,
        -0x4000_0000_0000_0000 < n < 0x4000_0000_0000_0000,
    ensures
        q == div_trunc(n as int, d as int),
{
    if n >= 0 {
        let q: u64 = (n as u64) / d;
        proof {
            lemma_div_nonincreasing(n as int, d as int);
            lemma_div_pos_is_pos(n as int, d as int);
        }
        q as i64
    } else {
        let m: u64 = (-n) as u64;
        let q: u64 = m / d;
        proof {
            lemma_div_nonincreasing(m as int, d as int);
            lemma_div_pos_is_pos(m as int, d as int);
        }
        -(q as i64)
    }
}

/// Magnitude bound carried through truncating division: if `|n| <= b * d`
/// then `|n / d|` (truncating) is at most `b`.
pub proof fn lemma_div_trunc_bound(n: int, d: int, b: int)
    requires
        d >= 1,
        b >= 0,
        -(b * d) <= n <= b * d,
    ensures
        -b <= div_trunc(n, d) <= b,
{
    assert(b * d == d * b) by (nonlinear_arith);
    if n >= 0 {
        lemma_div_is_ordered(n, d * b, d);
        lemma_div_multiples_vanish(b, d);
        lemma_div_pos_is_pos(n, d);
        assert(div_trunc(n, d) == n / d);
        assert(n / d <= (d * b) / d);
    } else {
        lemma_div_is_ordered(-n, d * b, d);
        lemma_div_multiples_vanish(b, d);
        lemma_div_pos_is_pos(-n, d);
        assert(div_trunc(n, d) == -((-n) / d));
        assert((-n) / d <= (d * b) / d);
    }
}

/// Rescales a vector to unit length (in subunits): each component becomes
/// `v_i * SCALE / |v|` with truncating division, so the result's components
/// are bounded by `SCALE` in magnitude.
pub fn normalize_units(v: Vec3Fix) -> (r: Vec3Fix)
    requires
        v.within(MUL_MAX as int),
        !v.is_zero(),
    ensures
        r.x == div_trunc(v.x * SCALE, isqrt_spec(norm_sq(v) as nat) as int),
        r.y == div_trunc(v.y * SCALE, isqrt_spec(norm_sq(v) as nat) as int),
        r.z == div_trunc(v.z * SCALE, isqrt_spec(norm_sq(v) as nat) as int),
        r.within(SCALE as int),
{
    proof {
        lemma_mul_bound(v.x as int, v.x as int, MUL_MAX as int);
        lemma_mul_bound(v.y as int, v.y as int, MUL_MAX as int);
        lemma_mul_bound(v.z as int, v.z as int, MUL_MAX as int);
        assert(v.x * v.x >= 0 && v.y * v.y >= 0 && v.z * v.z >= 0) by (nonlinear_arith);
        assert(norm_sq(v) >= 1) by (nonlinear_arith)
            requires
                !(v.x == 0 && v.y == 0 && v.z == 0),
        ;
    }
    let nsq: u64 = (v.x * v.x + v.y * v.y + v.z * v.z) as u64;
    let len: u64 = isqrt64(nsq);
    proof {
        if isqrt_spec(nsq as nat) == 0 {
            lemma_isqrt_bounds(nsq as nat);
            assert((0 + 1) * (0 + 1) == 1);
            assert(false);
        }
        let l = isqrt_spec(nsq as nat) as int;
        component_div_fits(v.x as int, nsq as int, l);
        component_div_fits(v.y as int, nsq as int, l);
        component_div_fits(v.z as int, nsq as int, l);
    }
    Vec3Fix {
        x: div_units(v.x * SCALE, len),
        y: div_units(v.y * SCALE, len),
        z: div_units(v.z * SCALE, len),
    }
}

/// One normalized component stays within `SCALE`: the norm dominates each
/// coordinate, so the truncated quotient `a * SCALE / l` cannot exceed
/// `SCALE` in magnitude.
proof fn component_div_fits(a: int, nsq: int, l: int)
    requires
        a * a <= nsq,
        -0x4000_0000 <= a <= 0x4000_0000,
        l == isqrt_spec(nsq as nat) as int,
        l >= 1,
        nsq >= 0,
    ensures
        -(SCALE as int) <= div_trunc(a * (SCALE as int), l) <= SCALE as int,
        -0x4000_0000_0000_0000 < a * (SCALE as int) < 0x4000_0000_0000_0000,
{
    if a >= 0 {
        lemma_isqrt_dominates(nsq as nat, a);
    } else {
        assert((-a) * (-a) == a * a) by (nonlinear_arith);
        lemma_isqrt_dominates(nsq as nat, -a);
    }
    assert(-((SCALE as int) * l) <= a * (SCALE as int) <= (SCALE as int) * l) by (nonlinear_arith)
        requires
            -l <= a <= l,
            l >= 1,
    ;
    lemma_div_trunc_bound(a * (SCALE as int), l, SCALE as int);
    assert(-0x4000_0000_0000_0000 < a * (SCALE as int) < 0x4000_0000_0000_0000) by (nonlinear_arith)
        requires
            -0x4000_0000 <= a <= 0x4000_0000,
    ;
}

/// Divides each component by `SCALE` with truncation, bringing a
/// product-scale vector back to subunits.
pub fn vec_descale(v: Vec3Fix) -> (r: Vec3Fix)
    requires
        v.within(0x4000_0000_0000_0000 - 1),
    ensures
        r.x == div_trunc(v.x as int, SCALE as int),
        r.y == div_trunc(v.y as int, SCALE as int),
        r.z == div_trunc(v.z as int, SCALE as int),
{
    Vec3Fix { x: div_units(v.x, 1000), y: div_units(v.y, 1000), z: div_units(v.z, 1000) }
}

} // verus!
