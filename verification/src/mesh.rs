//! Mesh geometry as plain data: vertices, triangle indices and the
//! bounding rectangle the layout algorithm reads. Uploading the data to
//! the GPU and issuing draws happens outside this library.

use vstd::prelude::*;
use crate::fx::{Fx, fxv, fx_add_raw, fx_sub_raw, fx_mul_raw, FX_SCALE};
use crate::rect::Rect;
use crate::vec2::VecF2;

verus! {

/// One vertex: a position in layout units and a texture coordinate.
#[derive(Clone, Copy, Debug, PartialEq, Eq, Structural)]
pub struct VertexPosUv {
    pub pos: VecF2,
    pub uv: VecF2,
}

impl VertexPosUv {
    pub fn new(position: VecF2, uv: VecF2) -> (r: VertexPosUv)
        ensures
            r == (VertexPosUv { pos: position, uv }),
    {
        VertexPosUv { pos: position, uv }
    }

    pub fn get_position(&self) -> (r: (Fx, Fx))
        ensures
            r.0 == self.pos.x,
            r.1 == self.pos.y,
    {
        (self.pos.x, self.pos.y)
    }
}

/// Running minimum and maximum corner over the first `n` vertices,
/// both starting from the origin as the fold's seed.
pub open spec fn spec_bounds_fold(vs: Seq<VertexPosUv>, n: int) -> (VecF2, VecF2)
    decreases n,
{
    if n <= 0 {
        (VecF2 { x: fxv(0), y: fxv(0) }, VecF2 { x: fxv(0), y: fxv(0) })
    } else {
        let (mn, mx) = spec_bounds_fold(vs, n - 1);
        let p = vs[n - 1].pos;
        let mx2 = VecF2 {
            x: if p.x.v() > mx.x.v() {
                p.x
            } else {
                mx.x
            },
            y: if p.y.v() > mx.y.v() {
                p.y
            } else {
                mx.y
            },
        };
        let mn2 = VecF2 {
            x: if p.x.v() < mn.x.v() {
                p.x
            } else {
                mn.x
            },
            y: if p.y.v() < mn.y.v() {
                p.y
            } else {
                mn.y
            },
        };
        (mn2, mx2)
    }
}

/// Bounding rectangle of a vertex list: the fold's minimum corner and
/// the extent up to its maximum corner.
pub open spec fn spec_calc_bounds(vs: Seq<VertexPosUv>) -> Rect {
    let (mn, mx) = spec_bounds_fold(vs, vs.len() as int);
    Rect {
        x: mn.x,
        y: mn.y,
        width: fxv(fx_sub_raw(mx.x.v(), mn.x.v())),
        height: fxv(fx_sub_raw(mx.y.v(), mn.y.v())),
    }
}

/// The four corners of an axis-aligned quad centred `size/2` around
/// `position`, with full-texture coordinates, in the fixed winding the
/// quad indices refer to.
pub open spec fn spec_quad_vertices(position: VecF2, size: VecF2) -> Seq<VertexPosUv> {
    let hw = fxv(fx_mul_raw(size.x.v(), (FX_SCALE / 2) as int));
    let hh = fxv(fx_mul_raw(size.y.v(), (FX_SCALE / 2) as int));
    seq![
        VertexPosUv {
            pos: VecF2 {
                x: fxv(fx_add_raw(position.x.v(), hw.v())),
                y: fxv(fx_add_raw(position.y.v(), hh.v())),
            },
            uv: VecF2 { x: fxv(FX_SCALE as int), y: fxv(0) },
        },
        VertexPosUv {
            pos: VecF2 {
                x: fxv(fx_add_raw(position.x.v(), hw.v())),
                y: fxv(fx_sub_raw(position.y.v(), hh.v())),
            },
            uv: VecF2 { x: fxv(FX_SCALE as int), y: fxv(FX_SCALE as int) },
        },
        VertexPosUv {
            pos: VecF2 {
                x: fxv(fx_sub_raw(position.x.v(), hw.v())),
                y: fxv(fx_sub_raw(position.y.v(), hh.v())),
            },
            uv: VecF2 { x: fxv(0), y: fxv(FX_SCALE as int) },
        },
        VertexPosUv {
            pos: VecF2 {
                x: fxv(fx_sub_raw(position.x.v(), hw.v())),
                y: fxv(fx_add_raw(position.y.v(), hh.v())),
            },
            uv: VecF2 { x: fxv(0), y: fxv(0) },
        },
    ]
}

/// Drawable geometry: vertices, triangle indices, and the bounding
/// rectangle derived from the vertices at construction.
#[derive(Clone, Debug)]
pub struct Mesh {
    pub vertices: Vec<VertexPosUv>,
    pub indices: Vec<u32>,
    pub bounds: Rect,
}

fn calcule_bounds(vertices: &Vec<VertexPosUv>) -> (r: Rect)
    ensures
        r == spec_calc_bounds(vertices@),
{
    let mut min = VecF2::zero();
    let mut max = VecF2::zero();
    let mut i: usize = 0;
    while i < vertices.len()
        invariant
            i <= vertices@.len(),
            (min, max) == spec_bounds_fold(vertices@, i as int),
        decreases vertices@.len() - i,
    {
        let (x, y) = vertices[i].get_position();
        if x.raw > max.x.raw {
            max.x = x;
        }
        if y.raw > max.y.raw {
            max.y = y;
        }
        if x.raw < min.x.raw {
            min.x = x;
        }
        if y.raw < min.y.raw {
            min.y = y;
        }
        i = i + 1;
    }
    Rect { x: min.x, y: min.y, width: max.x.sub(min.x), height: max.y.sub(min.y) }
}

impl Mesh {
    pub fn new(vertices: Vec<VertexPosUv>, indices: Vec<u32>) -> (r: Mesh)
        ensures
            r.vertices@ == vertices@,
            r.indices@ == indices@,
            r.bounds == spec_calc_bounds(vertices@),
    {
        let bounds = calcule_bounds(&vertices);
        Mesh { vertices, indices, bounds }
    }

    /// A quad of the given size centred around `position`, covering the
    /// full texture, as two triangles.
    pub fn new_quad(position: VecF2, size: VecF2) -> (r: Mesh)
        ensures
            r.vertices@ == spec_quad_vertices(position, size),
            r.indices@ == seq![0u32, 1u32, 3u32, 1u32, 2u32, 3u32],
            r.bounds == spec_calc_bounds(spec_quad_vertices(position, size)),
    {
        let half = Fx::from_raw(FX_SCALE / 2);
        let half_width = size.x.mul(half);
        let half_height = size.y.mul(half);
        let mut vertices: Vec<VertexPosUv> = Vec::new();
        vertices.push(
            VertexPosUv {
                pos: VecF2 { x: position.x.add(half_width), y: position.y.add(half_height) },
                uv: VecF2 { x: Fx::one(), y: Fx::zero() },
            },
        );
        vertices.push(
            VertexPosUv {
                pos: VecF2 { x: position.x.add(half_width), y: position.y.sub(half_height) },
                uv: VecF2 { x: Fx::one(), y: Fx::one() },
            },
        );
        vertices.push(
            VertexPosUv {
                pos: VecF2 { x: position.x.sub(half_width), y: position.y.sub(half_height) },
                uv: VecF2 { x: Fx::zero(), y: Fx::one() },
            },
        );
        vertices.push(
            VertexPosUv {
                pos: VecF2 { x: position.x.sub(half_width), y: position.y.add(half_height) },
                uv: VecF2 { x: Fx::zero(), y: Fx::zero() },
            },
        );
        let mut indices: Vec<u32> = Vec::new();
        indices.push(0);
        indices.push(1);
        indices.push(3);
        indices.push(1);
        indices.push(2);
        indices.push(3);
        proof {
            assert(vertices@ =~= spec_quad_vertices(position, size));
            assert(indices@ =~= seq![0u32, 1u32, 3u32, 1u32, 2u32, 3u32]);
        }
        Mesh::new(vertices, indices)
    }

    pub fn get_bounds(&self) -> (r: Rect)
        ensures
            r == self.bounds,
    {
        self.bounds
    }

    /// Number of indices the draw call consumes.
    pub fn indices_count(&self) -> (r: usize)
        ensures
            r == self.indices@.len(),
    {
        self.indices.len()
    }
}

} // verus!
