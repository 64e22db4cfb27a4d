//! Row-major 3x3 matrices over fixed-point scalars: the render transform
//! a node's layout resolves to, and the orthographic projection the
//! canvas uploads each frame.

use vstd::prelude::*;
use crate::fx::{Fx, fxv, fx_add_raw, fx_sub_raw, fx_mul_raw, fx_div_raw, fx_neg_raw, FX_SCALE};
use crate::vec2::VecF2;

verus! {

/// Fixed-point dot product of three-element rows and columns.
pub open spec fn fx_dot3(a1: int, a2: int, a3: int, b1: int, b2: int, b3: int) -> int {
    fx_add_raw(fx_add_raw(fx_mul_raw(a1, b1), fx_mul_raw(a2, b2)), fx_mul_raw(a3, b3))
}

/// A 3x3 matrix; `mCR` is the entry in column `C`, row `R` of the
/// written-out form, matching the constructor's row-by-row argument
/// order.
#[derive(Clone, Copy, Debug, PartialEq, Eq, Structural)]
pub struct Matrix3x3 {
    pub m11: Fx,
    pub m21: Fx,
    pub m31: Fx,
    pub m12: Fx,
    pub m22: Fx,
    pub m32: Fx,
    pub m13: Fx,
    pub m23: Fx,
    pub m33: Fx,
}

/// The identity matrix.
pub open spec fn spec_identity() -> Matrix3x3 {
    Matrix3x3 {
        m11: fxv(FX_SCALE as int),
        m21: fxv(0),
        m31: fxv(0),
        m12: fxv(0),
        m22: fxv(FX_SCALE as int),
        m32: fxv(0),
        m13: fxv(0),
        m23: fxv(0),
        m33: fxv(FX_SCALE as int),
    }
}

/// Matrix that translates by `t`.
pub open spec fn spec_translation(t: VecF2) -> Matrix3x3 {
    Matrix3x3 {
        m11: fxv(FX_SCALE as int),
        m21: fxv(0),
        m31: t.x,
        m12: fxv(0),
        m22: fxv(FX_SCALE as int),
        m32: t.y,
        m13: fxv(0),
        m23: fxv(0),
        m33: fxv(FX_SCALE as int),
    }
}

/// Matrix that scales by `s` componentwise.
pub open spec fn spec_scale(s: VecF2) -> Matrix3x3 {
    Matrix3x3 {
        m11: s.x,
        m21: fxv(0),
        m31: fxv(0),
        m12: fxv(0),
        m22: s.y,
        m32: fxv(0),
        m13: fxv(0),
        m23: fxv(0),
        m33: fxv(FX_SCALE as int),
    }
}

/// Product of two matrices, entry by entry.
pub open spec fn spec_matmul(a: Matrix3x3, b: Matrix3x3) -> Matrix3x3 {
    Matrix3x3 {
        m11: fxv(
            fx_dot3(a.m11.v(), a.m12.v(), a.m13.v(), b.m11.v(), b.m21.v(), b.m31.v()),
        ),
        m21: fxv(
            fx_dot3(a.m21.v(), a.m22.v(), a.m23.v(), b.m11.v(), b.m21.v(), b.m31.v()),
        ),
        m31: fxv(
            fx_dot3(a.m31.v(), a.m32.v(), a.m33.v(), b.m11.v(), b.m21.v(), b.m31.v()),
        ),
        m12: fxv(
            fx_dot3(a.m11.v(), a.m12.v(), a.m13.v(), b.m12.v(), b.m22.v(), b.m32.v()),
        ),
        m22: fxv(
            fx_dot3(a.m21.v(), a.m22.v(), a.m23.v(), b.m12.v(), b.m22.v(), b.m32.v()),
        ),
        m32: fxv(
            fx_dot3(a.m31.v(), a.m32.v(), a.m33.v(), b.m12.v(), b.m22.v(), b.m32.v()),
        ),
        m13: fxv(
            fx_dot3(a.m11.v(), a.m12.v(), a.m13.v(), b.m13.v(), b.m23.v(), b.m33.v()),
        ),
        m23: fxv(
            fx_dot3(a.m21.v(), a.m22.v(), a.m23.v(), b.m13.v(), b.m23.v(), b.m33.v()),
        ),
        m33: fxv(
            fx_dot3(a.m31.v(), a.m32.v(), a.m33.v(), b.m13.v(), b.m23.v(), b.m33.v()),
        ),
    }
}

/// Orthographic projection matrix: two units of clip space per viewport
/// extent, with the origin shifted to a corner unless centred.
pub open spec fn spec_orthographic(width: Fx, height: Fx, center: bool) -> Matrix3x3 {
    let offset = if center {
        fxv(0)
    } else {
        fxv(fx_neg_raw(FX_SCALE as int))
    };
    Matrix3x3 {
        m11: fxv(fx_div_raw(2 * FX_SCALE as int, width.v())),
        m21: fxv(0),
        m31: offset,
        m12: fxv(0),
        m22: fxv(fx_div_raw(2 * FX_SCALE as int, height.v())),
        m32: offset,
        m13: fxv(0),
        m23: fxv(0),
        m33: fxv(FX_SCALE as int),
    }
}

/// Fixed-point determinant of a matrix.
pub open spec fn spec_determinant(m: Matrix3x3) -> int {
    fx_add_raw(
        fx_sub_raw(
            fx_mul_raw(m.m11.v(), fx_sub_raw(fx_mul_raw(m.m22.v(), m.m33.v()), fx_mul_raw(m.m32.v(), m.m23.v()))),
            fx_mul_raw(m.m21.v(), fx_sub_raw(fx_mul_raw(m.m12.v(), m.m33.v()), fx_mul_raw(m.m32.v(), m.m13.v()))),
        ),
        fx_mul_raw(m.m31.v(), fx_sub_raw(fx_mul_raw(m.m12.v(), m.m23.v()), fx_mul_raw(m.m22.v(), m.m13.v()))),
    )
}

impl Matrix3x3 {
    pub fn new(
        m11: Fx,
        m21: Fx,
        m31: Fx,
        m12: Fx,
        m22: Fx,
        m32: Fx,
        m13: Fx,
        m23: Fx,
        m33: Fx,
    ) -> (r: Matrix3x3)
        ensures
            r == (Matrix3x3 { m11, m21, m31, m12, m22, m32, m13, m23, m33 }),
    {
        Matrix3x3 { m11, m21, m31, m12, m22, m32, m13, m23, m33 }
    }

    pub fn identity() -> (r: Matrix3x3)
        ensures
            r == spec_identity(),
    {
        let one = Fx::one();
        let zero = Fx::zero();
        Matrix3x3 {
            m11: one,
            m21: zero,
            m31: zero,
            m12: zero,
            m22: one,
            m32: zero,
            m13: zero,
            m23: zero,
            m33: one,
        }
    }

    pub fn create_translation(translation: (Fx, Fx)) -> (r: Matrix3x3)
        ensures
            r == spec_translation(VecF2 { x: translation.0, y: translation.1 }),
    {
        let one = Fx::one();
        let zero = Fx::zero();
        Matrix3x3 {
            m11: one,
            m21: zero,
            m31: translation.0,
            m12: zero,
            m22: one,
            m32: translation.1,
            m13: zero,
            m23: zero,
            m33: one,
        }
    }

    pub fn create_scale(scale: (Fx, Fx)) -> (r: Matrix3x3)
        ensures
            r == spec_scale(VecF2 { x: scale.0, y: scale.1 }),
    {
        let one = Fx::one();
        let zero = Fx::zero();
        Matrix3x3 {
            m11: scale.0,
            m21: zero,
            m31: zero,
            m12: zero,
            m22: scale.1,
            m32: zero,
            m13: zero,
            m23: zero,
            m33: one,
        }
    }

    /// Orthographic projection onto a `width` by `height` viewport.
    /// Asking for a degenerate viewport is a caller error, so both
    /// dimensions are required to be strictly positive.
    pub fn create_orthographic(width: Fx, height: Fx, center: bool) -> (r: Matrix3x3)
        requires
            width.v() > 0,
            height.v() > 0,
        ensures
            r == spec_orthographic(width, height, center),
    {
        let zero = Fx::zero();
        let offset = if center {
            Fx::zero()
        } else {
            Fx::one().neg()
        };
        let two = Fx::from_int(2);
        Matrix3x3 {
            m11: two.div(width),
            m21: zero,
            m31: offset,
            m12: zero,
            m22: two.div(height),
            m32: offset,
            m13: zero,
            m23: zero,
            m33: Fx::one(),
        }
    }

    pub fn transpose(&self) -> (r: Matrix3x3)
        ensures
            r == (Matrix3x3 {
                m11: self.m11,
                m21: self.m12,
                m31: self.m13,
                m12: self.m21,
                m22: self.m22,
                m32: self.m23,
                m13: self.m31,
                m23: self.m32,
                m33: self.m33,
            }),
    {
        Matrix3x3 {
            m11: self.m11,
            m21: self.m12,
            m31: self.m13,
            m12: self.m21,
            m22: self.m22,
            m32: self.m23,
            m13: self.m31,
            m23: self.m32,
            m33: self.m33,
        }
    }

    pub fn determinant(&self) -> (r: Fx)
        ensures
            r.v() == spec_determinant(*self),
    {
        let a = self.m11.mul(self.m22.mul(self.m33).sub(self.m32.mul(self.m23)));
        let b = self.m21.mul(self.m12.mul(self.m33).sub(self.m32.mul(self.m13)));
        let c = self.m31.mul(self.m12.mul(self.m23).sub(self.m22.mul(self.m13)));
        a.sub(b).add(c)
    }

    /// Inverse, if the determinant is nonzero; a singular matrix is an
    /// ordinary `None`.
    pub fn inverse(&self) -> (r: Option<Matrix3x3>)
        ensures
            r is Some <==> spec_determinant(*self) != 0,
            r is Some ==> {
                let inv = fxv(fx_div_raw(FX_SCALE as int, spec_determinant(*self)));
                r.unwrap().m11 == fxv(
                    fx_mul_raw(
                        fx_sub_raw(
                            fx_mul_raw(self.m22.v(), self.m33.v()),
                            fx_mul_raw(self.m32.v(), self.m23.v()),
                        ),
                        inv.v(),
                    ),
                )
            },
    {
        let det = self.determinant();
        if det.raw == 0 {
            return None;
        }
        let inv_det = Fx::one().div(det);
        Some(
            Matrix3x3 {
                m11: self.m22.mul(self.m33).sub(self.m32.mul(self.m23)).mul(inv_det),
                m21: self.m31.mul(self.m23).sub(self.m21.mul(self.m33)).mul(inv_det),
                m31: self.m21.mul(self.m32).sub(self.m31.mul(self.m22)).mul(inv_det),
                m12: self.m32.mul(self.m13).sub(self.m12.mul(self.m33)).mul(inv_det),
                m22: self.m11.mul(self.m33).sub(self.m31.mul(self.m13)).mul(inv_det),
                m32: self.m31.mul(self.m12).sub(self.m11.mul(self.m32)).mul(inv_det),
                m13: self.m12.mul(self.m23).sub(self.m22.mul(self.m13)).mul(inv_det),
                m23: self.m21.mul(self.m13).sub(self.m11.mul(self.m23)).mul(inv_det),
                m33: self.m11.mul(self.m22).sub(self.m21.mul(self.m12)).mul(inv_det),
            },
        )
    }

    pub fn mul(self, other: Matrix3x3) -> (r: Matrix3x3)
        ensures
            r == spec_matmul(self, other),
    {
        Matrix3x3 {
            m11: self.m11.mul(other.m11).add(self.m12.mul(other.m21)).add(
                self.m13.mul(other.m31),
            ),
            m21: self.m21.mul(other.m11).add(self.m22.mul(other.m21)).add(
                self.m23.mul(other.m31),
            ),
            m31: self.m31.mul(other.m11).add(self.m32.mul(other.m21)).add(
                self.m33.mul(other.m31),
            ),
            m12: self.m11.mul(other.m12).add(self.m12.mul(other.m22)).add(
                self.m13.mul(other.m32),
            ),
            m22: self.m21.mul(other.m12).add(self.m22.mul(other.m22)).add(
                self.m23.mul(other.m32),
            ),
            m32: self.m31.mul(other.m12).add(self.m32.mul(other.m22)).add(
                self.m33.mul(other.m32),
            ),
            m13: self.m11.mul(other.m13).add(self.m12.mul(other.m23)).add(
                self.m13.mul(other.m33),
            ),
            m23: self.m21.mul(other.m13).add(self.m22.mul(other.m23)).add(
                self.m23.mul(other.m33),
            ),
            m33: self.m31.mul(other.m13).add(self.m32.mul(other.m23)).add(
                self.m33.mul(other.m33),
            ),
        }
    }

    /// Point transformed by this matrix (homogeneous coordinate 1).
    pub fn transform_point(&self, point: (Fx, Fx)) -> (r: (Fx, Fx))
        ensures
            r.0.v() == fx_add_raw(
                fx_add_raw(
                    fx_mul_raw(self.m11.v(), point.0.v()),
                    fx_mul_raw(self.m21.v(), point.1.v()),
                ),
                self.m31.v(),
            ),
            r.1.v() == fx_add_raw(
                fx_add_raw(
                    fx_mul_raw(self.m12.v(), point.0.v()),
                    fx_mul_raw(self.m22.v(), point.1.v()),
                ),
                self.m32.v(),
            ),
    {
        (
            self.m11.mul(point.0).add(self.m21.mul(point.1)).add(self.m31),
            self.m12.mul(point.0).add(self.m22.mul(point.1)).add(self.m32),
        )
    }

    /// The nine entries in row-major order.
    pub fn as_raw(&self) -> (r: [Fx; 9])
        ensures
            r@ == seq![
                self.m11,
                self.m21,
                self.m31,
                self.m12,
                self.m22,
                self.m32,
                self.m13,
                self.m23,
                self.m33,
            ],
    {
        [
            self.m11,
            self.m21,
            self.m31,
            self.m12,
            self.m22,
            self.m32,
            self.m13,
            self.m23,
            self.m33,
        ]
    }

    /// Column-major entries padded to three four-scalar rows, the layout
    /// a std140 uniform block expects.
    pub fn as_std140(&self) -> (r: [Fx; 12])
        ensures
            r@ == seq![
                self.m11,
                self.m12,
                self.m13,
                fxv(0),
                self.m21,
                self.m22,
                self.m23,
                fxv(0),
                self.m31,
                self.m32,
                self.m33,
                fxv(0),
            ],
    {
        let zero = Fx::zero();
        [
            self.m11,
            self.m12,
            self.m13,
            zero,
            self.m21,
            self.m22,
            self.m23,
            zero,
            self.m31,
            self.m32,
            self.m33,
            zero,
        ]
    }
}

} // verus!
