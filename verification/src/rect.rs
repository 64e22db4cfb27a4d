//! Axis-aligned rectangles and texture regions in layout space.

use vstd::prelude::*;
use crate::fx::Fx;
use crate::vec2::VecF2;

verus! {

/// A rectangle given by its origin and its extent.
#[derive(Clone, Copy, Debug, PartialEq, Eq, Structural)]
pub struct Rect {
    pub x: Fx,
    pub y: Fx,
    pub width: Fx,
    pub height: Fx,
}

impl Rect {
    pub fn new(x: Fx, y: Fx, width: Fx, height: Fx) -> (r: Rect)
        ensures
            r == (Rect { x, y, width, height }),
    {
        Rect { x, y, width, height }
    }

    pub fn empty() -> (r: Rect)
        ensures
            r.x.v() == 0 && r.y.v() == 0 && r.width.v() == 0 && r.height.v() == 0,
    {
        Rect { x: Fx::zero(), y: Fx::zero(), width: Fx::zero(), height: Fx::zero() }
    }

    pub fn get_size(&self) -> (r: VecF2)
        ensures
            r == (VecF2 { x: self.width, y: self.height }),
    {
        VecF2 { x: self.width, y: self.height }
    }

    pub fn get_position(&self) -> (r: VecF2)
        ensures
            r == (VecF2 { x: self.x, y: self.y }),
    {
        VecF2 { x: self.x, y: self.y }
    }
}

/// A rectangular texture region given by two opposite corners in
/// normalized texture coordinates.
#[derive(Clone, Copy, Debug, PartialEq, Eq, Structural)]
pub struct Region {
    pub pos00: VecF2,
    pub pos11: VecF2,
}

impl Region {
    pub fn new(pos00: VecF2, pos11: VecF2) -> (r: Region)
        ensures
            r == (Region { pos00, pos11 }),
    {
        Region { pos00, pos11 }
    }

    pub fn empty() -> (r: Region)
        ensures
            r.pos00.x.v() == 0 && r.pos00.y.v() == 0 && r.pos11.x.v() == 0 && r.pos11.y.v() == 0,
    {
        Region { pos00: VecF2::zero(), pos11: VecF2::zero() }
    }
}

} // verus!
