//! Fixed-point scalar used for all layout coordinates.
//!
//! A `Fx` stores a real number as `raw / FX_SCALE` with `FX_SCALE = 2^16`.
//! Every operation is total: results that would leave the `i64` range
//! saturate at the nearest representable value, so layout code never
//! panics on degenerate geometry.

use vstd::prelude::*;

verus! {

/// Number of raw units per whole unit.
pub const FX_SCALE: i64 = 65536;

/// Absolute value over the mathematical integers.
pub open spec fn iabs(a: int) -> int {
    if a >= 0 {
        a
    } else {
        -a
    }
}

/// Clamp a mathematical integer into the `i64` range.
pub open spec fn sat64(x: int) -> int {
    if x < i64::MIN as int {
        i64::MIN as int
    } else if x > i64::MAX as int {
        i64::MAX as int
    } else {
        x
    }
}

/// Quotient of `a` and `b` rounded toward zero (the machine convention),
/// as opposed to the Euclidean `/` of specifications.
pub open spec fn div_trunc(a: int, b: int) -> int {
    if (a >= 0) == (b >= 0) {
        iabs(a) / iabs(b)
    } else {
        -(iabs(a) / iabs(b))
    }
}

/// Raw result of fixed-point addition.
pub open spec fn fx_add_raw(a: int, b: int) -> int {
    sat64(a + b)
}

/// Raw result of fixed-point subtraction.
pub open spec fn fx_sub_raw(a: int, b: int) -> int {
    sat64(a - b)
}

/// Raw result of fixed-point negation.
pub open spec fn fx_neg_raw(a: int) -> int {
    sat64(-a)
}

/// Raw result of fixed-point multiplication.
pub open spec fn fx_mul_raw(a: int, b: int) -> int {
    sat64(div_trunc(a * b, FX_SCALE as int))
}

/// Raw result of fixed-point division.
pub open spec fn fx_div_raw(a: int, b: int) -> int {
    sat64(div_trunc(a * (FX_SCALE as int), b))
}

/// Multiplying by zero yields zero exactly.
pub proof fn lemma_fx_mul_zero(a: int)
    ensures
        fx_mul_raw(a, 0) == 0,
        fx_mul_raw(0, a) == 0,
{
    assert(a * 0 == 0) by (nonlinear_arith);
    assert(0 * a == 0) by (nonlinear_arith);
    assert(iabs(0) / iabs(FX_SCALE as int) == 0);
}

/// Multiplying by one is exact while the product stays in range.
pub proof fn lemma_fx_mul_one(a: int)
    requires
        -0x7FFF_FFFF_FFFFint <= a <= 0x7FFF_FFFF_FFFFint,
    ensures
        fx_mul_raw(a, FX_SCALE as int) == a,
{
    let p = a * (FX_SCALE as int);
    if a >= 0 {
        assert(p >= 0 && p == a * 65536) by (nonlinear_arith)
            requires
                a >= 0,
                p == a * (FX_SCALE as int),
        ;
        assert(p / 65536 == a) by (nonlinear_arith)
            requires
                p == a * 65536,
        ;
        assert(iabs(p) == p);
    } else {
        assert(p < 0 && -p == (-a) * 65536) by (nonlinear_arith)
            requires
                a < 0,
                p == a * (FX_SCALE as int),
        ;
        assert((-p) / 65536 == -a) by (nonlinear_arith)
            requires
                -p == (-a) * 65536,
        ;
        assert(iabs(p) == -p);
    }
}

/// Fixed-point number: the real value `raw / FX_SCALE`.
#[derive(Clone, Copy, Debug, PartialEq, Eq, Structural)]
pub struct Fx {
    pub raw: i64,
}

/// The `Fx` whose raw units are `x`; exact whenever `x` is in the
/// `i64` range, as every saturated result is.
pub open spec fn fxv(x: int) -> Fx {
    Fx { raw: x as i64 }
}

/// Magnitude of an `i64` as a `u64` (total, also at `i64::MIN`).
fn mag64(x: i64) -> (m: u64)
    ensures
        m as int == iabs(x as int),
{
    if x >= 0 {
        x as u64
    } else {
        (-(x as i128)) as u64
    }
}

/// Reassemble a sign and a magnitude into a saturated `i64`.
fn sat_from_mag(neg: bool, m: u128) -> (r: i64)
    ensures
        r as int == sat64(if neg { -(m as int) } else { m as int }),
{
    if neg {
        if m >= 9223372036854775808u128 {
            i64::MIN
        } else {
            -(m as i64)
        }
    } else {
        if m > i64::MAX as u128 {
            i64::MAX
        } else {
            m as i64
        }
    }
}

proof fn lemma_mul_sign_mag(a: int, b: int)
    ensures
        iabs(a * b) == iabs(a) * iabs(b),
        (a * b >= 0) == ((a >= 0) == (b >= 0)) || a == 0 || b == 0,
    decreases 0int,
{
    assert(iabs(a * b) == iabs(a) * iabs(b)) by (nonlinear_arith);
    assert((a * b >= 0) == ((a >= 0) == (b >= 0)) || a == 0 || b == 0) by (nonlinear_arith);
}

impl Fx {
    /// The real number this value stands for, scaled to an integer.
    pub open spec fn v(self) -> int {
        self.raw as int
    }

    pub fn from_raw(raw: i64) -> (r: Fx)
        ensures
            r.raw == raw,
    {
        Fx { raw }
    }

    pub fn from_int(x: i32) -> (r: Fx)
        ensures
            r.v() == x * (FX_SCALE as int),
    {
        Fx { raw: (x as i64) * FX_SCALE }
    }

    pub fn from_uint(x: u32) -> (r: Fx)
        ensures
            r.v() == x * (FX_SCALE as int),
    {
        Fx { raw: (x as i64) * FX_SCALE }
    }

    pub fn zero() -> (r: Fx)
        ensures
            r.v() == 0,
    {
        Fx { raw: 0 }
    }

    pub fn one() -> (r: Fx)
        ensures
            r.v() == FX_SCALE as int,
    {
        Fx { raw: FX_SCALE }
    }

    /// Whole part, rounded toward zero.
    pub fn trunc(self) -> (r: i64)
        ensures
            r as int == div_trunc(self.v(), FX_SCALE as int),
    {
        let m: u64 = mag64(self.raw);
        let q: u64 = m / (FX_SCALE as u64);
        proof {
            assert(q as int <= 0x8000_0000_0000_0000int / 65536int) by (nonlinear_arith)
                requires
                    q as int == m as int / 65536int,
                    m as int <= 0x8000_0000_0000_0000int,
            ;
        }
        if self.raw >= 0 {
            q as i64
        } else {
            -(q as i64)
        }
    }

    pub fn add(self, o: Fx) -> (r: Fx)
        ensures
            r.v() == fx_add_raw(self.v(), o.v()),
    {
        let s: i128 = self.raw as i128 + o.raw as i128;
        if s > i64::MAX as i128 {
            Fx { raw: i64::MAX }
        } else if s < i64::MIN as i128 {
            Fx { raw: i64::MIN }
        } else {
            Fx { raw: s as i64 }
        }
    }

    pub fn sub(self, o: Fx) -> (r: Fx)
        ensures
            r.v() == fx_sub_raw(self.v(), o.v()),
    {
        let s: i128 = self.raw as i128 - o.raw as i128;
        if s > i64::MAX as i128 {
            Fx { raw: i64::MAX }
        } else if s < i64::MIN as i128 {
            Fx { raw: i64::MIN }
        } else {
            Fx { raw: s as i64 }
        }
    }

    pub fn neg(self) -> (r: Fx)
        ensures
            r.v() == fx_neg_raw(self.v()),
    {
        if self.raw == i64::MIN {
            Fx { raw: i64::MAX }
        } else {
            Fx { raw: -self.raw }
        }
    }

    pub fn mul(self, o: Fx) -> (r: Fx)
        ensures
            r.v() == fx_mul_raw(self.v(), o.v()),
    {
        let ma: u64 = mag64(self.raw);
        let mb: u64 = mag64(o.raw);
        proof {
            assert(ma as int * mb as int <= 0x8000_0000_0000_0000int * 0x8000_0000_0000_0000int)
                by (nonlinear_arith)
                requires
                    0 <= ma as int <= 0x8000_0000_0000_0000int,
                    0 <= mb as int <= 0x8000_0000_0000_0000int,
            ;
        }
        let p: u128 = (ma as u128) * (mb as u128);
        let q: u128 = p / (FX_SCALE as u128);
        let neg: bool = (self.raw < 0) != (o.raw < 0);
        proof {
            lemma_mul_sign_mag(self.raw as int, o.raw as int);
            assert(p as int == iabs(self.raw as int * o.raw as int));
        }
        let r: i64 = sat_from_mag(neg, q);
        Fx { raw: r }
    }

    pub fn div(self, o: Fx) -> (r: Fx)
        requires
            o.v() != 0,
        ensures
            r.v() == fx_div_raw(self.v(), o.v()),
    {
        let ma: u64 = mag64(self.raw);
        let mb: u64 = mag64(o.raw);
        proof {
            assert(ma as int * 65536int <= 0x8000_0000_0000_0000int * 65536int)
                by (nonlinear_arith)
                requires
                    0 <= ma as int <= 0x8000_0000_0000_0000int,
            ;
        }
        let p: u128 = (ma as u128) * (FX_SCALE as u128);
        let q: u128 = p / (mb as u128);
        let neg: bool = (self.raw < 0) != (o.raw < 0);
        proof {
            lemma_mul_sign_mag(self.raw as int, FX_SCALE as int);
        }
        let r: i64 = sat_from_mag(neg, q);
        Fx { raw: r }
    }
}

} // verus!
