//! Fixed-point scalars.
//!
//! Animated quantities (lengths, color channels, angles) are carried as
//! signed fixed-point numbers with `SCALE` units per whole step, so that the
//! blending arithmetic is exact integer arithmetic.  An eased progress value
//! is a scalar of the same kind: `SCALE` stands for progress 1, and values
//! outside `[0, SCALE]` express overshoot.

use vstd::prelude::*;
use vstd::arithmetic::div_mod::lemma_div_multiples_vanish;

verus! {

/// Number of fixed-point units in one whole step.
pub const SCALE: i64 = 65536;

/// Largest magnitude, in units, of an animated quantity.
pub const VALUE_LIMIT: i64 = 0x1_0000_0000;

/// Largest magnitude, in units, of an eased progress value.
pub const DELTA_LIMIT: i64 = 0x10_0000;

/// A fixed-point scalar worth `bits / SCALE`.
#[derive(Clone, Copy, Debug, PartialEq, Eq, Structural)]
pub struct Fx {
    pub bits: i64,
}

/// Integer division by `SCALE` rounding toward zero, as the CPU's signed
/// division does.
pub open spec fn div_scale(x: int) -> int {
    if x >= 0 {
        x / (SCALE as int)
    } else {
        -((-x) / (SCALE as int))
    }
}

/// The blend `s + (t - s) * d` on raw fixed-point bits: `d` carries `SCALE`
/// fractional units, so the product is scaled back down.
pub open spec fn lerp_bits(s: int, t: int, d: int) -> int {
    s + div_scale((t - s) * d)
}

/// Whether a scalar is small enough to take part in a blend.
pub open spec fn value_ok(x: Fx) -> bool {
    -VALUE_LIMIT <= x.bits <= VALUE_LIMIT
}

/// Whether a scalar is small enough to act as an eased progress value.
pub open spec fn delta_ok(d: Fx) -> bool {
    -DELTA_LIMIT <= d.bits <= DELTA_LIMIT
}

impl Fx {
    /// The fixed-point value of a whole number of units.
    pub fn whole(units: i32) -> (r: Fx)
        ensures
            r.bits == units * (SCALE as int),
    {
        Fx { bits: (units as i64) * SCALE }
    }

    /// The blended value `self + (target - self) * delta`, where `delta` is
    /// an eased progress scalar.
    pub fn lerp(self, target: Fx, delta: Fx) -> (r: Fx)
        requires
            value_ok(self),
            value_ok(target),
            delta_ok(delta),
        ensures
            r.bits == lerp_bits(self.bits as int, target.bits as int, delta.bits as int),
    {
        let diff: i64 = target.bits - self.bits;
        let scaled: i64 = mul_div_scale(diff, delta.bits);
        Fx { bits: self.bits + scaled }
    }
}

/// `(a * b) / SCALE` with the product taken exactly and the quotient rounded
/// toward zero.
fn mul_div_scale(a: i64, b: i64) -> (r: i64)
    requires
        -2 * VALUE_LIMIT <= a <= 2 * VALUE_LIMIT,
        -DELTA_LIMIT <= b <= DELTA_LIMIT,
    ensures
        r == div_scale(a * b),
        -0x40_0000_0000_0000 <= r <= 0x40_0000_0000_0000,
{
    let negative: bool = (a < 0) != (b < 0);
    let ma: u64 = if a < 0 { (-a) as u64 } else { a as u64 };
    let mb: u64 = if b < 0 { (-b) as u64 } else { b as u64 };
    proof {
        assert(ma * mb <= 2 * VALUE_LIMIT * DELTA_LIMIT) by (nonlinear_arith)
            requires
                0 <= ma <= 2 * VALUE_LIMIT,
                0 <= mb <= DELTA_LIMIT,
        ;
    }
    let q: u64 = (ma * mb) / (SCALE as u64);
    proof {
        assert(ma * mb == if a * b >= 0 { a * b } else { -(a * b) }) by (nonlinear_arith)
            requires
                ma == if a < 0 { -a as int } else { a as int },
                mb == if b < 0 { -b as int } else { b as int },
        ;
        assert(q <= 0x40_0000_0000_0000) by (nonlinear_arith)
            requires
                q == (ma * mb) / (SCALE as int),
                ma * mb <= 2 * VALUE_LIMIT * DELTA_LIMIT,
        ;
        assert(if (a < 0) != (b < 0) { a * b <= 0 } else { a * b >= 0 }) by (nonlinear_arith);
    }
    if negative {
        proof {
            assert(-(a * b) >= 0);
            assert(ma * mb == -(a * b) || a * b == 0);
            assert(div_scale(a * b) == -q);
        }
        -(q as i64)
    } else {
        proof {
            assert(ma * mb == a * b);
            assert(div_scale(a * b) == q);
        }
        q as i64
    }
}

/// At progress 0 a blend returns the source bits, and at progress `SCALE`
/// the target bits.
pub proof fn lemma_lerp_bits_endpoints(s: int, t: int)
    ensures
        lerp_bits(s, t, 0) == s,
        lerp_bits(s, t, SCALE as int) == t,
{
    assert((t - s) * 0 == 0) by (nonlinear_arith);
    let diff = t - s;
    let p = diff * (SCALE as int);
    if diff >= 0 {
        assert(p >= 0) by (nonlinear_arith)
            requires
                diff >= 0,
                p == diff * (SCALE as int),
        ;
        lemma_div_multiples_vanish(diff, SCALE as int);
        assert((SCALE as int) * diff == p) by (nonlinear_arith)
            requires
                p == diff * (SCALE as int),
        ;
    } else {
        assert(p < 0 && -p == (-diff) * (SCALE as int)) by (nonlinear_arith)
            requires
                diff < 0,
                p == diff * (SCALE as int),
        ;
        lemma_div_multiples_vanish(-diff, SCALE as int);
        assert((SCALE as int) * (-diff) == -p) by (nonlinear_arith)
            requires
                -p == (-diff) * (SCALE as int),
        ;
    }
}

} // verus!
