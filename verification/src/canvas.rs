//! The canvas: root driver of the scene graph. It owns the root element,
//! the identity-rooted parent frame the root is laid out against, and
//! the per-frame uniform block (time, delta time, resolution, projection)
//! in its 16-scalar std140 layout.
//!
//! Lifecycle: constructed, then `start`, then any interleaving of
//! `update`, `render` and `resize`; the three are only valid once
//! running.

use vstd::prelude::*;
use crate::context::GameContext;
use crate::element::{
    is_empty_element, spec_transform_default, updated_elem, Element, Transform, Widget,
};
use crate::fx::{Fx, fxv, FX_SCALE};
use crate::material::Material;
use crate::matrix::{spec_orthographic, Matrix3x3};
use crate::mesh::Mesh;
use crate::vec2::{VecF2, VecI2};

verus! {

/// The per-frame uniform block: frame clock, output resolution, and the
/// orthographic projection.
#[derive(Clone, Copy, Debug, PartialEq, Eq, Structural)]
pub struct CanvasUniform {
    pub delta_time: Fx,
    pub time: Fx,
    pub resolution: VecF2,
    pub projection: Matrix3x3,
}

impl CanvasUniform {
    /// The block's std140 layout: time, delta time and resolution in the
    /// first four scalars, then the projection as three padded columns —
    /// sixteen scalars, one 64-byte block.
    pub fn to_array(&self) -> (r: [Fx; 16])
        ensures
            r@ == seq![
                self.time,
                self.delta_time,
                self.resolution.x,
                self.resolution.y,
                self.projection.m11,
                self.projection.m12,
                self.projection.m13,
                fxv(0),
                self.projection.m21,
                self.projection.m22,
                self.projection.m23,
                fxv(0),
                self.projection.m31,
                self.projection.m32,
                self.projection.m33,
                fxv(0),
            ],
    {
        let zero = Fx::zero();
        [
            self.time,
            self.delta_time,
            self.resolution.x,
            self.resolution.y,
            self.projection.m11,
            self.projection.m12,
            self.projection.m13,
            zero,
            self.projection.m21,
            self.projection.m22,
            self.projection.m23,
            zero,
            self.projection.m31,
            self.projection.m32,
            self.projection.m33,
            zero,
        ]
    }
}

/// Root driver: one root element, the fixed identity-rooted parent
/// frame, the uniform block, and the running flag of the lifecycle.
pub struct Canvas {
    pub root: Element,
    pub transform: Transform,
    pub uniform: CanvasUniform,
    pub running: bool,
}

impl Canvas {
    /// A canvas for the default 1200 by 600 logical surface, not yet
    /// running. The root element starts dirty with that declarative
    /// size; the parent frame it will be laid out against is the
    /// identity: origin position, zero size.
    pub fn new() -> (r: Canvas)
        ensures
            !r.running,
            r.root.name@ == Seq::<char>::empty(),
            r.root.transform == (Transform {
                size: VecF2 { x: fxv(1200 * FX_SCALE as int), y: fxv(600 * FX_SCALE as int) },
                ..spec_transform_default()
            }),
            r.root.mesh is None,
            r.root.material is None,
            r.root.children@.len() == 0,
            r.root.is_dirty,
            r.transform == spec_transform_default(),
            r.uniform.delta_time.v() == 0,
            r.uniform.time.v() == 0,
            r.uniform.resolution == (VecF2 {
                x: fxv(1200 * FX_SCALE as int),
                y: fxv(600 * FX_SCALE as int),
            }),
            r.uniform.projection == spec_orthographic(
                fxv(1200 * FX_SCALE as int),
                fxv(600 * FX_SCALE as int),
                false,
            ),
    {
        let width = Fx::from_int(1200);
        let height = Fx::from_int(600);
        let mut root = Element::empty();
        root.set_size(VecF2::new(width, height));
        Canvas {
            root,
            transform: Transform::by_canvas(VecF2::zero()),
            uniform: CanvasUniform {
                delta_time: Fx::zero(),
                time: Fx::zero(),
                resolution: VecF2::new(width, height),
                projection: Matrix3x3::create_orthographic(width, height, false),
            },
            running: false,
        }
    }

    /// Enter the running state; the host uploads the uniform block when
    /// it creates the GPU buffer for it.
    pub fn start(&mut self)
        ensures
            *final(self) == (Canvas { running: true, ..*old(self) }),
    {
        self.running = true;
    }

    /// One frame's update: refresh the uniform block's clock from the
    /// context, then run an update pass over the root subtree against
    /// the identity-rooted frame.
    pub fn update(&mut self, ctx: &GameContext)
        requires
            old(self).running,
        ensures
            final(self).running,
            final(self).transform == old(self).transform,
            final(self).uniform == (CanvasUniform {
                delta_time: ctx.delta_time,
                time: ctx.time,
                ..old(self).uniform
            }),
            updated_elem(
                old(self).root,
                final(self).root,
                ctx.vault,
                old(self).transform.real_position,
                old(self).transform.real_size,
                false,
                None,
            ),
    {
        self.uniform.delta_time = ctx.get_delta_time();
        self.uniform.time = ctx.get_time();
        let frame: Transform = self.transform;
        self.root.internal_update(ctx, &frame);
    }

    /// One frame's draw list, in painter's order: parents before their
    /// children. The host binds each material and draws each mesh in
    /// this exact order.
    pub fn render<'a>(&'a self, _ctx: &GameContext) -> (r: Vec<(&'a Mesh, &'a Material)>)
        requires
            self.running,
        ensures
            r@.len() == crate::element::spec_draws(self.root).len(),
            forall|k: int|
                0 <= k < r@.len() ==> *(#[trigger] r@[k]).0 == crate::element::spec_draws(
                    self.root,
                )[k].0 && *r@[k].1 == crate::element::spec_draws(self.root)[k].1,
    {
        let mut out: Vec<(&Mesh, &Material)> = Vec::new();
        self.root.internal_render(&mut out);
        proof {
            assert forall|k: int|
                0 <= k < out@.len() implies *(#[trigger] out@[k]).0 == crate::element::spec_draws(
                self.root,
            )[k].0 && *out@[k].1 == crate::element::spec_draws(self.root)[k].1 by {
                assert(out@[0 + k] == out@[k]);
            }
        }
        out
    }

    /// Adopt the reported surface size: the resolution and projection
    /// follow the full size, and the root's declarative size is set to
    /// it, marking the root dirty for the next update.
    pub fn resize(&mut self, ctx: &GameContext)
        requires
            old(self).running,
            ctx.window_size.x > 0,
            ctx.window_size.y > 0,
        ensures
            final(self).running,
            final(self).transform == old(self).transform,
            final(self).uniform == (CanvasUniform {
                resolution: (VecF2 {
                    x: fxv(ctx.window_size.x * FX_SCALE as int),
                    y: fxv(ctx.window_size.y * FX_SCALE as int),
                }),
                projection: spec_orthographic(
                    fxv(ctx.window_size.x * FX_SCALE as int),
                    fxv(ctx.window_size.y * FX_SCALE as int),
                    false,
                ),
                ..old(self).uniform
            }),
            final(self).root == (Element {
                is_dirty: true,
                transform: (Transform {
                    size: (VecF2 {
                        x: fxv(ctx.window_size.x * FX_SCALE as int),
                        y: fxv(ctx.window_size.y * FX_SCALE as int),
                    }),
                    ..old(self).root.transform
                }),
                ..old(self).root
            }),
    {
        let size = VecF2::from_veci2(ctx.get_window_size());
        self.uniform.resolution = size;
        self.uniform.projection = Matrix3x3::create_orthographic(size.x, size.y, false);
        self.root.set_size(size);
    }

    pub fn add_child(&mut self, child: Widget)
        ensures
            final(self).root.children@ == old(self).root.children@.push(child),
            final(self).root == (Element {
                children: final(self).root.children,
                ..old(self).root
            }),
            final(self).transform == old(self).transform,
            final(self).uniform == old(self).uniform,
            final(self).running == old(self).running,
    {
        self.root.add_child(child);
    }

    pub fn get_child(&self, index: usize) -> (r: Option<&Widget>)
        ensures
            match r {
                Some(w) => index < self.root.children@.len() && *w == self.root.children@[index as int],
                None => index >= self.root.children@.len(),
            },
    {
        self.root.get_child(index)
    }

    pub fn get_child_mut(&mut self, index: usize) -> (r: Option<&mut Widget>)
        ensures
            final(self).transform == old(self).transform,
            final(self).uniform == old(self).uniform,
            final(self).running == old(self).running,
            match r {
                Some(w) => {
                    &&& index < old(self).root.children@.len()
                    &&& *w == old(self).root.children@[index as int]
                    &&& final(self).root.children@ == old(self).root.children@.update(
                        index as int,
                        *final(w),
                    )
                    &&& final(self).root == (Element {
                        children: final(self).root.children,
                        ..old(self).root
                    })
                },
                None => index >= old(self).root.children@.len() && final(self).root == old(
                    self,
                ).root,
            },
    {
        self.root.get_child_mut(index)
    }
}

} // verus!
