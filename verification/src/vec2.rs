//! Two-dimensional vectors: fixed-point (`VecF2`) for layout coordinates
//! and integer (`VecI2`) for window sizes in whole pixels.

use vstd::prelude::*;
use crate::fx::{Fx, fxv, fx_add_raw, fx_sub_raw, fx_mul_raw, fx_neg_raw, FX_SCALE};

verus! {

/// Componentwise fixed-point sum.
pub open spec fn spec_vadd(a: VecF2, b: VecF2) -> VecF2 {
    VecF2 { x: fxv(fx_add_raw(a.x.v(), b.x.v())), y: fxv(fx_add_raw(a.y.v(), b.y.v())) }
}

/// Componentwise fixed-point difference.
pub open spec fn spec_vsub(a: VecF2, b: VecF2) -> VecF2 {
    VecF2 { x: fxv(fx_sub_raw(a.x.v(), b.x.v())), y: fxv(fx_sub_raw(a.y.v(), b.y.v())) }
}

/// Componentwise fixed-point product.
pub open spec fn spec_vmul(a: VecF2, b: VecF2) -> VecF2 {
    VecF2 { x: fxv(fx_mul_raw(a.x.v(), b.x.v())), y: fxv(fx_mul_raw(a.y.v(), b.y.v())) }
}

/// A point or extent in layout space, one fixed-point coordinate per axis.
#[derive(Clone, Copy, Debug, PartialEq, Eq, Structural)]
pub struct VecF2 {
    pub x: Fx,
    pub y: Fx,
}

impl VecF2 {
    pub fn new(x: Fx, y: Fx) -> (r: VecF2)
        ensures
            r == (VecF2 { x, y }),
    {
        VecF2 { x, y }
    }

    pub fn zero() -> (r: VecF2)
        ensures
            r.x.v() == 0,
            r.y.v() == 0,
    {
        VecF2 { x: Fx::zero(), y: Fx::zero() }
    }

    pub fn one() -> (r: VecF2)
        ensures
            r.x.v() == FX_SCALE as int,
            r.y.v() == FX_SCALE as int,
    {
        VecF2 { x: Fx::one(), y: Fx::one() }
    }

    /// Componentwise sum.
    pub fn add(self, o: VecF2) -> (r: VecF2)
        ensures
            r == spec_vadd(self, o),
            r.x.v() == fx_add_raw(self.x.v(), o.x.v()),
            r.y.v() == fx_add_raw(self.y.v(), o.y.v()),
    {
        VecF2 { x: self.x.add(o.x), y: self.y.add(o.y) }
    }

    /// Componentwise difference.
    pub fn sub(self, o: VecF2) -> (r: VecF2)
        ensures
            r == spec_vsub(self, o),
            r.x.v() == fx_sub_raw(self.x.v(), o.x.v()),
            r.y.v() == fx_sub_raw(self.y.v(), o.y.v()),
    {
        VecF2 { x: self.x.sub(o.x), y: self.y.sub(o.y) }
    }

    /// Componentwise product.
    pub fn mul(self, o: VecF2) -> (r: VecF2)
        ensures
            r == spec_vmul(self, o),
            r.x.v() == fx_mul_raw(self.x.v(), o.x.v()),
            r.y.v() == fx_mul_raw(self.y.v(), o.y.v()),
    {
        VecF2 { x: self.x.mul(o.x), y: self.y.mul(o.y) }
    }

    /// Componentwise quotient; a zero divisor on either axis is a
    /// caller error.
    pub fn div(self, o: VecF2) -> (r: VecF2)
        requires
            o.x.v() != 0,
            o.y.v() != 0,
        ensures
            r.x.v() == crate::fx::fx_div_raw(self.x.v(), o.x.v()),
            r.y.v() == crate::fx::fx_div_raw(self.y.v(), o.y.v()),
    {
        VecF2 { x: self.x.div(o.x), y: self.y.div(o.y) }
    }

    /// Componentwise negation.
    pub fn neg(self) -> (r: VecF2)
        ensures
            r.x.v() == fx_neg_raw(self.x.v()),
            r.y.v() == fx_neg_raw(self.y.v()),
    {
        VecF2 { x: self.x.neg(), y: self.y.neg() }
    }

    /// Whole-pixel vector lifted into layout space.
    pub fn from_veci2(v: VecI2) -> (r: VecF2)
        ensures
            r.x.v() == v.x * (FX_SCALE as int),
            r.y.v() == v.y * (FX_SCALE as int),
    {
        VecF2 { x: Fx::from_int(v.x), y: Fx::from_int(v.y) }
    }
}

/// An integer vector, used for sizes measured in whole pixels.
#[derive(Clone, Copy, Debug, PartialEq, Eq, Structural)]
pub struct VecI2 {
    pub x: i32,
    pub y: i32,
}

impl VecI2 {
    pub fn new(x: i32, y: i32) -> (r: VecI2)
        ensures
            r == (VecI2 { x, y }),
    {
        VecI2 { x, y }
    }

    pub fn zero() -> (r: VecI2)
        ensures
            r == (VecI2 { x: 0i32, y: 0i32 }),
    {
        VecI2 { x: 0, y: 0 }
    }

    pub fn one() -> (r: VecI2)
        ensures
            r == (VecI2 { x: 1i32, y: 1i32 }),
    {
        VecI2 { x: 1, y: 1 }
    }
}

} // verus!
