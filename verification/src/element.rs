//! Scene-graph nodes: the declarative transform, the cached layout it
//! resolves to, and the element tree with its dirty-flag update and
//! pre-order render traversals.
//!
//! The cached fields of a transform (matrix, real position, real size)
//! are derived state: whenever a node's dirty flag is clear they equal a
//! pure recomputation from the declarative fields and the parent's
//! cached frame, and an update recomputes exactly the dirty part of the
//! tree, forcing every descendant of a recomputed node.

use vstd::prelude::*;
use crate::assoc::assoc_find;
use crate::context::GameContext;
use crate::fx::{Fx, fxv, fx_add_raw, fx_mul_raw, fx_sub_raw, FX_SCALE};
use crate::material::Material;
use crate::matrix::{spec_identity, spec_matmul, spec_scale, spec_translation, Matrix3x3};
use crate::mesh::Mesh;
use crate::rect::Rect;
use crate::vault::Vault;
use crate::vec2::{spec_vadd, spec_vmul, spec_vsub, VecF2};
use crate::widgets::{font_live, font_of, is_text_mesh, Image, Label, Panel};

verus! {

/// A node's transform: declarative anchor/pivot constraints plus the
/// cached resolution of them against the parent's frame.
#[derive(Clone, Copy, Debug, PartialEq, Eq, Structural)]
pub struct Transform {
    pub matrix: Matrix3x3,
    pub real_position: VecF2,
    pub real_size: VecF2,
    pub position: VecF2,
    pub size: VecF2,
    pub scale: VecF2,
    pub pivot: VecF2,
    pub anchor_min: VecF2,
    pub anchor_max: VecF2,
    pub scale_with_size: bool,
    pub preserve_mesh_origin: bool,
}

/// A fresh transform: everything zero, unit scale, identity matrix,
/// scaling with size and preserving the mesh origin.
pub open spec fn spec_transform_default() -> Transform {
    Transform {
        matrix: spec_identity(),
        real_position: VecF2 { x: fxv(0), y: fxv(0) },
        real_size: VecF2 { x: fxv(0), y: fxv(0) },
        position: VecF2 { x: fxv(0), y: fxv(0) },
        size: VecF2 { x: fxv(0), y: fxv(0) },
        scale: VecF2 { x: fxv(FX_SCALE as int), y: fxv(FX_SCALE as int) },
        pivot: VecF2 { x: fxv(0), y: fxv(0) },
        anchor_min: VecF2 { x: fxv(0), y: fxv(0) },
        anchor_max: VecF2 { x: fxv(0), y: fxv(0) },
        scale_with_size: true,
        preserve_mesh_origin: true,
    }
}

impl Transform {
    pub fn new() -> (r: Transform)
        ensures
            r == spec_transform_default(),
    {
        Transform {
            matrix: Matrix3x3::identity(),
            real_position: VecF2::zero(),
            real_size: VecF2::zero(),
            position: VecF2::zero(),
            size: VecF2::zero(),
            scale: VecF2::one(),
            pivot: VecF2::zero(),
            anchor_min: VecF2::zero(),
            anchor_max: VecF2::zero(),
            scale_with_size: true,
            preserve_mesh_origin: true,
        }
    }

    /// The root frame a canvas passes to its scene root: a fresh
    /// transform carrying only a declarative size.
    pub fn by_canvas(size: VecF2) -> (r: Transform)
        ensures
            r == (Transform { size, ..spec_transform_default() }),
    {
        let mut t = Transform::new();
        t.size = size;
        t
    }
}

/// The base rectangle a node is laid out from: the mesh bounds if the
/// node has a mesh — with the extent replaced by the declarative size
/// when scaling with size, and the origin zeroed when not preserving
/// the mesh origin — else simply the declarative size at the origin.
pub open spec fn spec_base_bounds(t: Transform, mesh_bounds: Option<Rect>) -> Rect {
    match mesh_bounds {
        Some(mb) => Rect {
            x: if t.preserve_mesh_origin {
                mb.x
            } else {
                fxv(0)
            },
            y: if t.preserve_mesh_origin {
                mb.y
            } else {
                fxv(0)
            },
            width: if t.scale_with_size {
                t.size.x
            } else {
                mb.width
            },
            height: if t.scale_with_size {
                t.size.y
            } else {
                mb.height
            },
        },
        None => Rect { x: fxv(0), y: fxv(0), width: t.size.x, height: t.size.y },
    }
}

/// Pure resolution of a transform against the parent's cached frame:
/// anchor positions from the parent size, stretch-to-anchors on each
/// axis whose anchors differ, pivot offset, and the scale-then-translate
/// render matrix. Only the cached fields change.
pub open spec fn spec_calc_transform(
    t: Transform,
    mesh_bounds: Option<Rect>,
    ppos: VecF2,
    psize: VecF2,
) -> Transform {
    let bounds = spec_base_bounds(t, mesh_bounds);
    let anchor_min_pos = spec_vmul(psize, t.anchor_min);
    let anchor_max_pos = spec_vmul(psize, t.anchor_max);
    let anchor_area_size = spec_vsub(anchor_max_pos, anchor_min_pos);
    let base_size = spec_vmul(VecF2 { x: bounds.width, y: bounds.height }, t.scale);
    let final_size = VecF2 {
        x: if t.anchor_min.x != t.anchor_max.x {
            fxv(fx_add_raw(anchor_area_size.x.v(), t.size.x.v()))
        } else {
            base_size.x
        },
        y: if t.anchor_min.y != t.anchor_max.y {
            fxv(fx_add_raw(anchor_area_size.y.v(), t.size.y.v()))
        } else {
            base_size.y
        },
    };
    let pivot_offset = spec_vadd(
        spec_vmul(t.pivot, final_size),
        spec_vmul(VecF2 { x: bounds.x, y: bounds.y }, final_size),
    );
    let real_position = spec_vsub(spec_vadd(spec_vadd(ppos, anchor_min_pos), t.position), pivot_offset);
    let matrix = spec_matmul(
        spec_scale(
            if t.scale_with_size {
                final_size
            } else {
                t.scale
            },
        ),
        spec_translation(real_position),
    );
    Transform { matrix, real_position, real_size: final_size, ..t }
}

/// One scene-graph node: a transform, an optional drawable payload, and
/// the owned children, with the dirty flag that marks the cached
/// transform as stale.
pub struct Element {
    pub name: String,
    pub transform: Transform,
    pub mesh: Option<Mesh>,
    pub material: Option<Material>,
    pub children: Vec<Widget>,
    pub is_dirty: bool,
}

/// The node every scene-graph child is one of: a bare element or one of
/// the concrete widgets, each of which owns exactly one element.
pub enum Widget {
    Node(Element),
    Image(Image),
    Label(Label),
    Panel(Panel),
}

/// The element a widget owns.
pub open spec fn spec_element_of(w: Widget) -> Element {
    match w {
        Widget::Node(e) => e,
        Widget::Image(i) => i.element,
        Widget::Label(l) => l.element,
        Widget::Panel(p) => p.element,
    }
}

/// The same widget with its owned element replaced.
pub open spec fn spec_with_element(w: Widget, e: Element) -> Widget {
    match w {
        Widget::Node(_) => Widget::Node(e),
        Widget::Image(i) => Widget::Image(Image { element: e }),
        Widget::Label(l) => Widget::Label(Label { element: e, ..l }),
        Widget::Panel(_) => Widget::Panel(Panel { element: e }),
    }
}

/// A freshly constructed element with no payload and no children.
pub open spec fn is_empty_element(e: Element) -> bool {
    &&& e.name@ == Seq::<char>::empty()
    &&& e.transform == spec_transform_default()
    &&& e.mesh is None
    &&& e.material is None
    &&& e.children@.len() == 0
    &&& e.is_dirty
}

/// Number of nodes in an element's subtree.
pub open spec fn size_el(e: Element) -> nat
    decreases e, 1int,
{
    1 + size_upto(e.children@, e.children@.len() as int)
}

/// Number of nodes in the subtrees of the first `n` children.
pub open spec fn size_upto(s: Seq<Widget>, n: int) -> nat
    decreases s, n,
{
    if n <= 0 || n > s.len() {
        0
    } else {
        size_upto(s, n - 1) + 1 + size_el(spec_element_of(s[n - 1]))
    }
}

proof fn lemma_size_child(s: Seq<Widget>, n: int, i: int)
    requires
        0 <= i < n <= s.len(),
    ensures
        size_el(spec_element_of(s[i])) < size_upto(s, n),
    decreases n,
{
    if i < n - 1 {
        lemma_size_child(s, n - 1, i);
    }
}

/// The bounds the layout reads from an optional mesh.
pub open spec fn bounds_opt(m: Option<Mesh>) -> Option<Rect> {
    match m {
        Some(mm) => Some(mm.bounds),
        None => None,
    }
}

/// How updating pushes the fresh matrix into a material: if the shader
/// is live its model-matrix property is bound, everything else of the
/// material is untouched; with no live shader the material is unchanged.
pub open spec fn mat_rel(
    pre: Option<Material>,
    post: Option<Material>,
    vault: Vault,
    matrix: Matrix3x3,
) -> bool {
    match pre {
        None => post is None,
        Some(a) => post matches Some(b) && {
            &&& b.shader_id == a.shader_id
            &&& b.textures@ == a.textures@
            &&& (!a.shader_live(vault) ==> b.properties@ == a.properties@)
            &&& (a.shader_live(vault) ==> {
                &&& assoc_find(b.properties@, "u_model"@) == Some(matrix)
                &&& forall|n: Seq<char>|
                    n != "u_model"@ ==> assoc_find(b.properties@, n) == assoc_find(
                        a.properties@,
                        n,
                    )
            })
        },
    }
}

/// How one update pass relates a node's pre- and post-states, given the
/// parent frame it ran against. `forced` stands for the parent having
/// marked this node dirty on the way down; `new_mesh` is the mesh a
/// begin-hook installed before the pass (`None`: the node's own mesh).
///
/// A dirty node recomputes its cached transform from its declarative
/// fields and the parent frame, forces and updates every child against
/// the fresh frame, binds the fresh matrix in its material, and comes
/// out clean. A clean node keeps its cache and updates children against
/// the cached frame, unforced.
pub open spec fn updated_elem(
    pre: Element,
    post: Element,
    vault: Vault,
    ppos: VecF2,
    psize: VecF2,
    forced: bool,
    new_mesh: Option<Mesh>,
) -> bool
    decreases pre, 1int,
{
    let m = if new_mesh is Some {
        new_mesh
    } else {
        pre.mesh
    };
    let dirty = pre.is_dirty || forced;
    &&& post.name == pre.name
    &&& post.mesh == m
    &&& post.children@.len() == pre.children@.len()
    &&& if dirty {
        let t2 = spec_calc_transform(pre.transform, bounds_opt(m), ppos, psize);
        &&& post.transform == t2
        &&& !post.is_dirty
        &&& mat_rel(pre.material, post.material, vault, t2.matrix)
        &&& forall|i: int|
            0 <= i < pre.children@.len() ==> updated_widget(
                pre.children@[i],
                #[trigger] post.children@[i],
                vault,
                t2.real_position,
                t2.real_size,
                true,
            )
    } else {
        &&& post.transform == pre.transform
        &&& post.is_dirty == pre.is_dirty
        &&& post.material == pre.material
        &&& forall|i: int|
            0 <= i < pre.children@.len() ==> updated_widget(
                pre.children@[i],
                #[trigger] post.children@[i],
                vault,
                pre.transform.real_position,
                pre.transform.real_size,
                false,
            )
    }
}

/// `updated_elem` lifted to widgets: a label first rebuilds its mesh
/// from the font when its text is marked dirty (and the text fits
/// 32-bit indexing), then updates like any other node.
pub open spec fn updated_widget(
    pre: Widget,
    post: Widget,
    vault: Vault,
    ppos: VecF2,
    psize: VecF2,
    forced: bool,
) -> bool
    decreases pre, 0int,
{
    match pre {
        Widget::Node(a) => post matches Widget::Node(b) && updated_elem(
            a,
            b,
            vault,
            ppos,
            psize,
            forced,
            None,
        ),
        Widget::Image(a) => post matches Widget::Image(b) && updated_elem(
            a.element,
            b.element,
            vault,
            ppos,
            psize,
            forced,
            None,
        ),
        Widget::Panel(a) => post matches Widget::Panel(b) && updated_elem(
            a.element,
            b.element,
            vault,
            ppos,
            psize,
            forced,
            None,
        ),
        Widget::Label(a) => post matches Widget::Label(b) && {
            &&& b.font_id == a.font_id
            &&& b.text == a.text
            &&& !b.is_dirty
            &&& if a.is_dirty && font_live(vault, a.font_id) && 4 * a.text@.len() <= u32::MAX {
                &&& b.element.mesh is Some
                &&& is_text_mesh(b.element.mesh.unwrap(), font_of(vault, a.font_id), a.text@)
                &&& updated_elem(a.element, b.element, vault, ppos, psize, forced, b.element.mesh)
            } else {
                updated_elem(a.element, b.element, vault, ppos, psize, forced, None)
            }
        },
    }
}

/// Every mesh-and-material pair an element's subtree draws, parents
/// before children, children in order: the fixed painter's order of the
/// render traversal.
pub open spec fn spec_draws(e: Element) -> Seq<(Mesh, Material)>
    decreases e, 1int,
{
    let own = if e.mesh is Some && e.material is Some {
        seq![(e.mesh.unwrap(), e.material.unwrap())]
    } else {
        Seq::<(Mesh, Material)>::empty()
    };
    own + spec_draws_upto(e.children@, e.children@.len() as int)
}

/// Draws of the first `n` children, concatenated in order.
pub open spec fn spec_draws_upto(s: Seq<Widget>, n: int) -> Seq<(Mesh, Material)>
    decreases s, n,
{
    if n <= 0 || n > s.len() {
        Seq::<(Mesh, Material)>::empty()
    } else {
        spec_draws_upto(s, n - 1) + spec_draws(spec_element_of(s[n - 1]))
    }
}

impl Element {
    pub fn new(mesh: Mesh, material: Material) -> (r: Element)
        ensures
            r.name@ == Seq::<char>::empty(),
            r.transform == spec_transform_default(),
            r.mesh == Some(mesh),
            r.material == Some(material),
            r.children@.len() == 0,
            r.is_dirty,
    {
        Element {
            name: String::new(),
            transform: Transform::new(),
            mesh: Some(mesh),
            material: Some(material),
            children: Vec::new(),
            is_dirty: true,
        }
    }

    pub fn empty() -> (r: Element)
        ensures
            is_empty_element(r),
    {
        Element {
            name: String::new(),
            transform: Transform::new(),
            mesh: None,
            material: None,
            children: Vec::new(),
            is_dirty: true,
        }
    }

    pub fn add_child(&mut self, child: Widget)
        ensures
            final(self).children@ == old(self).children@.push(child),
            *final(self) == (Element { children: final(self).children, ..*old(self) }),
    {
        self.children.push(child);
    }

    pub fn get_child(&self, index: usize) -> (r: Option<&Widget>)
        ensures
            match r {
                Some(w) => index < self.children@.len() && *w == self.children@[index as int],
                None => index >= self.children@.len(),
            },
    {
        if index < self.children.len() {
            Some(&self.children[index])
        } else {
            None
        }
    }

    pub fn get_child_mut(&mut self, index: usize) -> (r: Option<&mut Widget>)
        ensures
            match r {
                Some(w) => {
                    &&& index < old(self).children@.len()
                    &&& *w == old(self).children@[index as int]
                    &&& final(self).children@ == old(self).children@.update(
                        index as int,
                        *final(w),
                    )
                    &&& *final(self) == (Element {
                        children: final(self).children,
                        ..*old(self)
                    })
                },
                None => index >= old(self).children@.len() && *final(self) == *old(self),
            },
    {
        if index < self.children.len() {
            Some(&mut self.children[index])
        } else {
            None
        }
    }

    pub fn get_name(&self) -> (r: &str)
        ensures
            r@ == self.name@,
    {
        self.name.as_str()
    }

    pub fn set_name(&mut self, name: &str)
        ensures
            final(self).name@ == name@,
            *final(self) == (Element { name: final(self).name, ..*old(self) }),
    {
        self.name = name.to_owned();
    }

    pub fn get_mesh(&self) -> (r: Option<&Mesh>)
        ensures
            match r {
                Some(m) => self.mesh == Some(*m),
                None => self.mesh is None,
            },
    {
        self.mesh.as_ref()
    }

    pub fn get_mesh_mut(&mut self) -> (r: Option<&mut Mesh>)
        ensures
            match r {
                Some(m) => {
                    &&& old(self).mesh == Some(*m)
                    &&& *final(self) == (Element { mesh: Some(*final(m)), ..*old(self) })
                },
                None => old(self).mesh is None && *final(self) == *old(self),
            },
    {
        self.mesh.as_mut()
    }

    pub fn set_mesh(&mut self, mesh: Mesh)
        ensures
            *final(self) == (Element { mesh: Some(mesh), ..*old(self) }),
    {
        self.mesh = Some(mesh);
    }

    pub fn get_position(&self) -> (r: &VecF2)
        ensures
            *r == self.transform.position,
    {
        &self.transform.position
    }

    /// Borrow the declarative position for mutation; the node is marked
    /// dirty for the borrow's eventual effect.
    pub fn get_position_mut(&mut self) -> (r: &mut VecF2)
        ensures
            *r == old(self).transform.position,
            *final(self) == (Element {
                is_dirty: true,
                transform: (Transform { position: *final(r), ..old(self).transform }),
                ..*old(self)
            }),
    {
        self.is_dirty = true;
        &mut self.transform.position
    }

    pub fn set_position(&mut self, position: VecF2)
        ensures
            *final(self) == (Element {
                is_dirty: true,
                transform: (Transform { position, ..old(self).transform }),
                ..*old(self)
            }),
    {
        self.is_dirty = true;
        self.transform.position = position;
    }

    pub fn get_scale(&self) -> (r: &VecF2)
        ensures
            *r == self.transform.scale,
    {
        &self.transform.scale
    }

    /// Borrow the declarative scale for mutation; the node is marked
    /// dirty for the borrow's eventual effect.
    pub fn get_scale_mut(&mut self) -> (r: &mut VecF2)
        ensures
            *r == old(self).transform.scale,
            *final(self) == (Element {
                is_dirty: true,
                transform: (Transform { scale: *final(r), ..old(self).transform }),
                ..*old(self)
            }),
    {
        self.is_dirty = true;
        &mut self.transform.scale
    }

    pub fn set_scale(&mut self, scale: VecF2)
        ensures
            *final(self) == (Element {
                is_dirty: true,
                transform: (Transform { scale, ..old(self).transform }),
                ..*old(self)
            }),
    {
        self.is_dirty = true;
        self.transform.scale = scale;
    }

    pub fn get_pivot(&self) -> (r: &VecF2)
        ensures
            *r == self.transform.pivot,
    {
        &self.transform.pivot
    }

    /// Borrow the pivot for mutation; the node is marked dirty for the
    /// borrow's eventual effect.
    pub fn get_pivot_mut(&mut self) -> (r: &mut VecF2)
        ensures
            *r == old(self).transform.pivot,
            *final(self) == (Element {
                is_dirty: true,
                transform: (Transform { pivot: *final(r), ..old(self).transform }),
                ..*old(self)
            }),
    {
        self.is_dirty = true;
        &mut self.transform.pivot
    }

    pub fn set_pivot(&mut self, pivot: VecF2)
        ensures
            *final(self) == (Element {
                is_dirty: true,
                transform: (Transform { pivot, ..old(self).transform }),
                ..*old(self)
            }),
    {
        self.is_dirty = true;
        self.transform.pivot = pivot;
    }

    pub fn get_size(&self) -> (r: &VecF2)
        ensures
            *r == self.transform.size,
    {
        &self.transform.size
    }

    /// Borrow the declarative size for mutation; the node is marked
    /// dirty for the borrow's eventual effect.
    pub fn get_size_mut(&mut self) -> (r: &mut VecF2)
        ensures
            *r == old(self).transform.size,
            *final(self) == (Element {
                is_dirty: true,
                transform: (Transform { size: *final(r), ..old(self).transform }),
                ..*old(self)
            }),
    {
        self.is_dirty = true;
        &mut self.transform.size
    }

    pub fn set_size(&mut self, size: VecF2)
        ensures
            *final(self) == (Element {
                is_dirty: true,
                transform: (Transform { size, ..old(self).transform }),
                ..*old(self)
            }),
    {
        self.is_dirty = true;
        self.transform.size = size;
    }

    pub fn get_anchor_min(&self) -> (r: &VecF2)
        ensures
            *r == self.transform.anchor_min,
    {
        &self.transform.anchor_min
    }

    /// Borrow the lower anchor for mutation; the node is marked dirty
    /// for the borrow's eventual effect.
    pub fn get_anchor_min_mut(&mut self) -> (r: &mut VecF2)
        ensures
            *r == old(self).transform.anchor_min,
            *final(self) == (Element {
                is_dirty: true,
                transform: (Transform { anchor_min: *final(r), ..old(self).transform }),
                ..*old(self)
            }),
    {
        self.is_dirty = true;
        &mut self.transform.anchor_min
    }

    pub fn set_anchor_min(&mut self, anchor: VecF2)
        ensures
            *final(self) == (Element {
                is_dirty: true,
                transform: (Transform { anchor_min: anchor, ..old(self).transform }),
                ..*old(self)
            }),
    {
        self.is_dirty = true;
        self.transform.anchor_min = anchor;
    }

    pub fn get_anchor_max(&self) -> (r: &VecF2)
        ensures
            *r == self.transform.anchor_max,
    {
        &self.transform.anchor_max
    }

    /// Borrow the upper anchor for mutation; the node is marked dirty
    /// for the borrow's eventual effect.
    pub fn get_anchor_max_mut(&mut self) -> (r: &mut VecF2)
        ensures
            *r == old(self).transform.anchor_max,
            *final(self) == (Element {
                is_dirty: true,
                transform: (Transform { anchor_max: *final(r), ..old(self).transform }),
                ..*old(self)
            }),
    {
        self.is_dirty = true;
        &mut self.transform.anchor_max
    }

    pub fn set_anchor_max(&mut self, anchor: VecF2)
        ensures
            *final(self) == (Element {
                is_dirty: true,
                transform: (Transform { anchor_max: anchor, ..old(self).transform }),
                ..*old(self)
            }),
    {
        self.is_dirty = true;
        self.transform.anchor_max = anchor;
    }

    /// Pin both anchors to one point: a fixed-size node positioned
    /// relative to that fraction of the parent.
    pub fn set_anchors(&mut self, anchors: VecF2)
        ensures
            *final(self) == (Element {
                is_dirty: true,
                transform: (Transform {
                    anchor_min: anchors,
                    anchor_max: anchors,
                    ..old(self).transform
                }),
                ..*old(self)
            }),
    {
        self.is_dirty = true;
        self.transform.anchor_min = anchors;
        self.transform.anchor_max = anchors;
    }

    /// Pin both anchors and the pivot to one point: the node sits with
    /// that fraction of itself on that fraction of the parent.
    pub fn set_pivot_and_anchors(&mut self, value: VecF2)
        ensures
            *final(self) == (Element {
                is_dirty: true,
                transform: (Transform {
                    anchor_min: value,
                    anchor_max: value,
                    pivot: value,
                    ..old(self).transform
                }),
                ..*old(self)
            }),
    {
        self.is_dirty = true;
        self.transform.anchor_min = value;
        self.transform.anchor_max = value;
        self.transform.pivot = value;
    }

    pub fn is_scale_with_size(&self) -> (r: bool)
        ensures
            r == self.transform.scale_with_size,
    {
        self.transform.scale_with_size
    }

    pub fn set_scale_with_size(&mut self, value: bool)
        ensures
            *final(self) == (Element {
                is_dirty: true,
                transform: (Transform { scale_with_size: value, ..old(self).transform }),
                ..*old(self)
            }),
    {
        self.is_dirty = true;
        self.transform.scale_with_size = value;
    }

    pub fn is_preserve_mesh_origin(&self) -> (r: bool)
        ensures
            r == self.transform.preserve_mesh_origin,
    {
        self.transform.preserve_mesh_origin
    }

    pub fn set_preserve_mesh_origin(&mut self, value: bool)
        ensures
            *final(self) == (Element {
                is_dirty: true,
                transform: (Transform { preserve_mesh_origin: value, ..old(self).transform }),
                ..*old(self)
            }),
    {
        self.is_dirty = true;
        self.transform.preserve_mesh_origin = value;
    }

    /// Resolve this node's cached transform against the parent frame.
    fn calcule_matrix(&mut self, parent: &Transform)
        ensures
            final(self).transform == spec_calc_transform(
                old(self).transform,
                bounds_opt(old(self).mesh),
                parent.real_position,
                parent.real_size,
            ),
            final(self).name == old(self).name,
            final(self).mesh == old(self).mesh,
            final(self).material == old(self).material,
            final(self).children == old(self).children,
            final(self).is_dirty == old(self).is_dirty,
    {
        let bounds: Rect = match &self.mesh {
            Some(mesh) => {
                let mut mesh_bounds = mesh.get_bounds();
                if self.transform.scale_with_size {
                    mesh_bounds.width = self.transform.size.x;
                    mesh_bounds.height = self.transform.size.y;
                }
                if !self.transform.preserve_mesh_origin {
                    mesh_bounds.x = Fx::zero();
                    mesh_bounds.y = Fx::zero();
                }
                mesh_bounds
            },
            None => Rect::new(Fx::zero(), Fx::zero(), self.transform.size.x, self.transform.size.y),
        };

        let tfm = self.transform;
        let anchor_min_pos = parent.real_size.mul(tfm.anchor_min);
        let anchor_max_pos = parent.real_size.mul(tfm.anchor_max);
        let anchor_area_size = anchor_max_pos.sub(anchor_min_pos);

        let mut final_size = bounds.get_size().mul(tfm.scale);
        if tfm.anchor_min.x.raw != tfm.anchor_max.x.raw {
            final_size.x = anchor_area_size.x.add(tfm.size.x);
        }
        if tfm.anchor_min.y.raw != tfm.anchor_max.y.raw {
            final_size.y = anchor_area_size.y.add(tfm.size.y);
        }

        let pivot_offset = tfm.pivot.mul(final_size).add(bounds.get_position().mul(final_size));
        let real_position = parent.real_position.add(anchor_min_pos).add(tfm.position).sub(
            pivot_offset,
        );

        let matrix = if tfm.scale_with_size {
            Matrix3x3::create_scale((final_size.x, final_size.y))
        } else {
            Matrix3x3::create_scale((tfm.scale.x, tfm.scale.y))
        }.mul(Matrix3x3::create_translation((real_position.x, real_position.y)));

        self.transform.real_position = real_position;
        self.transform.real_size = final_size;
        self.transform.matrix = matrix;
    }

    /// One update pass over this subtree against the parent frame: a
    /// dirty node recomputes its cached transform, forces and updates
    /// every child against the fresh frame, pushes the fresh matrix into
    /// its material and comes out clean; a clean node only forwards the
    /// pass to its children with its cached frame.
    pub fn internal_update(&mut self, ctx: &GameContext, parent: &Transform)
        ensures
            updated_elem(
                *old(self),
                *final(self),
                ctx.vault,
                parent.real_position,
                parent.real_size,
                false,
                None,
            ),
        decreases size_el(*old(self)),
    {
        if self.is_dirty {
            self.calcule_matrix(parent);
            let t_parent: Transform = self.transform;
            let n = self.children.len();
            let mut i: usize = 0;
            while i < n
                invariant
                    n == self.children@.len(),
                    n == old(self).children@.len(),
                    i <= n,
                    self.name == old(self).name,
                    self.mesh == old(self).mesh,
                    self.material == old(self).material,
                    self.is_dirty == old(self).is_dirty,
                    self.transform == t_parent,
                    t_parent == spec_calc_transform(
                        old(self).transform,
                        bounds_opt(old(self).mesh),
                        parent.real_position,
                        parent.real_size,
                    ),
                    forall|j: int| i <= j < n ==> self.children@[j] == old(self).children@[j],
                    forall|j: int|
                        0 <= j < i ==> updated_widget(
                            old(self).children@[j],
                            #[trigger] self.children@[j],
                            ctx.vault,
                            t_parent.real_position,
                            t_parent.real_size,
                            true,
                        ),
                decreases n - i,
            {
                proof {
                    assert(self.children@[i as int] == old(self).children@[i as int]);
                    lemma_size_child(old(self).children@, n as int, i as int);
                }
                let ghost pre_child = self.children@[i as int];
                {
                    let child = &mut self.children[i];
                    let child_element = child.get_element_mut();
                    child_element.is_dirty = true;
                }
                let ghost forced_child = self.children@[i as int];
                proof {
                    assert(forced_child == spec_with_element(
                        pre_child,
                        Element { is_dirty: true, ..spec_element_of(pre_child) },
                    ));
                    assert(size_el(spec_element_of(forced_child)) == size_el(
                        spec_element_of(pre_child),
                    ));
                    assert(size_w(forced_child) < size_el(*old(self)));
                }
                self.children[i].update(ctx, &t_parent);
                proof {
                    lemma_forced(
                        pre_child,
                        self.children@[i as int],
                        ctx.vault,
                        t_parent.real_position,
                        t_parent.real_size,
                    );
                }
                i = i + 1;
            }
            let model_matrix: Matrix3x3 = self.transform.matrix;
            match &mut self.material {
                Some(material) => {
                    material.set_property(ctx, "u_model", model_matrix);
                },
                None => {},
            }
            self.is_dirty = false;
        } else {
            let t_parent: Transform = self.transform;
            let n = self.children.len();
            let mut i: usize = 0;
            while i < n
                invariant
                    n == self.children@.len(),
                    n == old(self).children@.len(),
                    i <= n,
                    self.name == old(self).name,
                    self.mesh == old(self).mesh,
                    self.material == old(self).material,
                    self.is_dirty == old(self).is_dirty,
                    !self.is_dirty,
                    self.transform == t_parent,
                    t_parent == old(self).transform,
                    forall|j: int| i <= j < n ==> self.children@[j] == old(self).children@[j],
                    forall|j: int|
                        0 <= j < i ==> updated_widget(
                            old(self).children@[j],
                            #[trigger] self.children@[j],
                            ctx.vault,
                            t_parent.real_position,
                            t_parent.real_size,
                            false,
                        ),
                decreases n - i,
            {
                proof {
                    assert(self.children@[i as int] == old(self).children@[i as int]);
                    lemma_size_child(old(self).children@, n as int, i as int);
                    assert(size_w(self.children@[i as int]) < size_el(*old(self)));
                }
                self.children[i].update(ctx, &t_parent);
                i = i + 1;
            }
        }
    }

    /// Collect, in draw order, every mesh-and-material pair this subtree
    /// renders: this node's payload first, then each child's subtree in
    /// order — children draw after, hence on top of, their parent.
    pub fn internal_render<'a>(&'a self, out: &mut Vec<(&'a Mesh, &'a Material)>)
        ensures
            final(out)@.len() == old(out)@.len() + spec_draws(*self).len(),
            forall|k: int| 0 <= k < old(out)@.len() ==> final(out)@[k] == old(out)@[k],
            forall|k: int|
                0 <= k < spec_draws(*self).len() ==> *(#[trigger] final(out)@[old(out)@.len()
                    + k]).0 == spec_draws(*self)[k].0 && *final(out)@[old(out)@.len() + k].1
                    == spec_draws(*self)[k].1,
        decreases size_el(*self),
    {
        let ghost entry = out@;
        let ghost own = (if self.mesh is Some && self.material is Some {
            seq![(self.mesh.unwrap(), self.material.unwrap())]
        } else {
            Seq::<(Mesh, Material)>::empty()
        });
        match (&self.mesh, &self.material) {
            (Some(mesh), Some(material)) => {
                out.push((mesh, material));
            },
            _ => {},
        }
        let ghost base = out@;
        proof {
            assert(base.len() == entry.len() + own.len());
            assert(forall|k: int| 0 <= k < entry.len() ==> base[k] == entry[k]);
            assert forall|k: int|
                0 <= k < own.len() implies *(#[trigger] base[entry.len() + k]).0 == own[k].0 && *base[
                entry.len() + k].1 == own[k].1 by {
                assert(k == 0);
            }
        }
        let n = self.children.len();
        let mut i: usize = 0;
        while i < n
            invariant
                n == self.children@.len(),
                out@.len() == base.len() + spec_draws_upto(self.children@, i as int).len(),
                i <= n,
                forall|k: int| 0 <= k < base.len() ==> out@[k] == base[k],
                forall|k: int|
                    0 <= k < spec_draws_upto(self.children@, i as int).len() ==> *(
                    #[trigger] out@[base.len() + k]).0 == spec_draws_upto(
                        self.children@,
                        i as int,
                    )[k].0 && *out@[base.len() + k].1 == spec_draws_upto(
                        self.children@,
                        i as int,
                    )[k].1,
            decreases n - i,
        {
            proof {
                lemma_size_child(self.children@, n as int, i as int);
            }
            let ghost prev = spec_draws_upto(self.children@, i as int);
            let ghost prev_out = out@;
            self.children[i].render(out);
            proof {
                let s = self.children@;
                let d = spec_draws(spec_element_of(s[i as int]));
                assert(spec_draws_upto(s, i as int + 1) == prev + d);
                assert forall|k: int|
                    0 <= k < (prev + d).len() implies *(#[trigger] out@[base.len() + k]).0 == (prev
                    + d)[k].0 && *out@[base.len() + k].1 == (prev + d)[k].1 by {
                    if k < prev.len() {
                        assert((prev + d)[k] == prev[k]);
                        assert(out@[base.len() + k] == prev_out[base.len() + k]);
                    } else {
                        assert((prev + d)[k] == d[k - prev.len()]);
                        assert(out@[prev_out.len() + (k - prev.len())] == out@[base.len() + k]);
                    }
                }
            }
            i = i + 1;
        }
        proof {
            let s = self.children@;
            let kids = spec_draws_upto(s, n as int);
            let all = spec_draws(*self);
            assert(all == own + kids);
            assert forall|k: int|
                0 <= k < all.len() implies *(#[trigger] out@[entry.len() + k]).0 == all[k].0
                && *out@[entry.len() + k].1 == all[k].1 by {
                if k < own.len() {
                    assert(all[k] == own[k]);
                    assert(out@[entry.len() + k] == base[entry.len() + k]);
                } else {
                    assert(all[k] == kids[k - own.len()]);
                    assert(entry.len() + k == base.len() + (k - own.len()));
                }
            }
        }
    }
}

/// Number of nodes in a widget's subtree.
pub open spec fn size_w(w: Widget) -> nat {
    1 + size_el(spec_element_of(w))
}

proof fn lemma_forced_elem(
    a: Element,
    b: Element,
    vault: Vault,
    p: VecF2,
    s: VecF2,
    nm: Option<Mesh>,
)
    requires
        updated_elem(Element { is_dirty: true, ..a }, b, vault, p, s, false, nm),
    ensures
        updated_elem(a, b, vault, p, s, true, nm),
{
}

/// Marking a widget's element dirty before an unforced update pass has
/// exactly the effect of a forced pass on the original widget.
proof fn lemma_forced(w: Widget, w2: Widget, vault: Vault, p: VecF2, s: VecF2)
    requires
        updated_widget(
            spec_with_element(w, Element { is_dirty: true, ..spec_element_of(w) }),
            w2,
            vault,
            p,
            s,
            false,
        ),
    ensures
        updated_widget(w, w2, vault, p, s, true),
{
    match w {
        Widget::Node(a) => {
            match w2 {
                Widget::Node(b) => {
                    lemma_forced_elem(a, b, vault, p, s, None);
                },
                _ => {},
            }
        },
        Widget::Image(a) => {
            match w2 {
                Widget::Image(b) => {
                    lemma_forced_elem(a.element, b.element, vault, p, s, None);
                },
                _ => {},
            }
        },
        Widget::Panel(a) => {
            match w2 {
                Widget::Panel(b) => {
                    lemma_forced_elem(a.element, b.element, vault, p, s, None);
                },
                _ => {},
            }
        },
        Widget::Label(a) => {
            match w2 {
                Widget::Label(b) => {
                    if a.is_dirty && font_live(vault, a.font_id) && 4 * a.text@.len()
                        <= u32::MAX {
                        lemma_forced_elem(a.element, b.element, vault, p, s, b.element.mesh);
                    } else {
                        lemma_forced_elem(a.element, b.element, vault, p, s, None);
                    }
                },
                _ => {},
            }
        },
    }
}

impl Widget {
    pub fn get_element(&self) -> (r: &Element)
        ensures
            *r == spec_element_of(*self),
    {
        match self {
            Widget::Node(e) => e,
            Widget::Image(i) => &i.element,
            Widget::Label(l) => &l.element,
            Widget::Panel(p) => &p.element,
        }
    }

    pub fn get_element_mut(&mut self) -> (r: &mut Element)
        ensures
            *r == spec_element_of(*old(self)),
            *final(self) == spec_with_element(*old(self), *final(r)),
    {
        match self {
            Widget::Node(e) => e,
            Widget::Image(i) => &mut i.element,
            Widget::Label(l) => &mut l.element,
            Widget::Panel(p) => &mut p.element,
        }
    }

    /// One update pass over this widget: its begin-hook (a label's text
    /// mesh rebuild), then the pass over its element's subtree.
    pub fn update(&mut self, ctx: &GameContext, parent: &Transform)
        ensures
            updated_widget(
                *old(self),
                *final(self),
                ctx.vault,
                parent.real_position,
                parent.real_size,
                false,
            ),
        decreases size_w(*old(self)),
    {
        match self {
            Widget::Node(e) => {
                e.internal_update(ctx, parent);
            },
            Widget::Image(i) => {
                i.element.internal_update(ctx, parent);
            },
            Widget::Panel(p) => {
                p.element.internal_update(ctx, parent);
            },
            Widget::Label(l) => {
                let ghost pre = *l;
                l.begin_update(ctx);
                proof {
                    assert(size_el(l.element) == size_el(pre.element));
                }
                let ghost mid_element = l.element;
                l.element.internal_update(ctx, parent);
                proof {
                    if pre.is_dirty && font_live(ctx.vault, pre.font_id) && 4 * pre.text@.len()
                        <= u32::MAX {
                        let m = mid_element.mesh.unwrap();
                        assert(mid_element == (Element { mesh: Some(m), ..pre.element }));
                        lemma_mesh_override(pre.element, m, l.element, ctx.vault, parent.real_position, parent.real_size);
                    }
                }
            },
        }
    }

    /// Collect this widget's draws: exactly its element's subtree draws.
    pub fn render<'a>(&'a self, out: &mut Vec<(&'a Mesh, &'a Material)>)
        ensures
            final(out)@.len() == old(out)@.len() + spec_draws(spec_element_of(*self)).len(),
            forall|k: int| 0 <= k < old(out)@.len() ==> final(out)@[k] == old(out)@[k],
            forall|k: int|
                0 <= k < spec_draws(spec_element_of(*self)).len() ==> *(
                #[trigger] final(out)@[old(out)@.len() + k]).0 == spec_draws(
                    spec_element_of(*self),
                )[k].0 && *final(out)@[old(out)@.len() + k].1 == spec_draws(
                    spec_element_of(*self),
                )[k].1,
        decreases size_w(*self),
    {
        match self {
            Widget::Node(e) => e.internal_render(out),
            Widget::Image(i) => i.element.internal_render(out),
            Widget::Label(l) => l.element.internal_render(out),
            Widget::Panel(p) => p.element.internal_render(out),
        }
    }
}

/// An update of an element whose begin-hook replaced the mesh is an
/// update of the original element under that mesh override.
proof fn lemma_mesh_override(a: Element, m: Mesh, b: Element, vault: Vault, p: VecF2, s: VecF2)
    requires
        updated_elem(Element { mesh: Some(m), ..a }, b, vault, p, s, false, None),
    ensures
        updated_elem(a, b, vault, p, s, false, Some(m)),
{
}

/// Every cached transform in this subtree is valid: the node is clean
/// and its cache equals a pure recomputation from its own declarative
/// fields and the given parent frame, recursively with this node's fresh
/// frame for the children.
pub open spec fn subtree_resolved(e: Element, ppos: VecF2, psize: VecF2) -> bool
    decreases e, 1int,
{
    &&& !e.is_dirty
    &&& e.transform == spec_calc_transform(e.transform, bounds_opt(e.mesh), ppos, psize)
    &&& forall|i: int|
        0 <= i < e.children@.len() ==> subtree_resolved_w(
            #[trigger] e.children@[i],
            e.transform.real_position,
            e.transform.real_size,
        )
}

/// `subtree_resolved` for a widget's element.
pub open spec fn subtree_resolved_w(w: Widget, ppos: VecF2, psize: VecF2) -> bool
    decreases w, 0int,
{
    subtree_resolved(spec_element_of(w), ppos, psize)
}

/// Dirty propagation: one update pass over a node that is dirty (or was
/// forced) recomputes the cached transform of that node and of every
/// one of its descendants, whether or not the descendants' own
/// declarative fields changed, and leaves the whole subtree clean and
/// consistent with its parent frames.
pub proof fn lemma_update_resolves_subtree(
    pre: Element,
    post: Element,
    vault: Vault,
    ppos: VecF2,
    psize: VecF2,
    forced: bool,
    nm: Option<Mesh>,
)
    requires
        updated_elem(pre, post, vault, ppos, psize, forced, nm),
        pre.is_dirty || forced,
    ensures
        subtree_resolved(post, ppos, psize),
    decreases pre, 1int,
{
    let m = if nm is Some {
        nm
    } else {
        pre.mesh
    };
    let t2 = spec_calc_transform(pre.transform, bounds_opt(m), ppos, psize);
    assert(spec_calc_transform(post.transform, bounds_opt(post.mesh), ppos, psize) == t2);
    assert forall|i: int|
        0 <= i < post.children@.len() implies subtree_resolved_w(
        #[trigger] post.children@[i],
        post.transform.real_position,
        post.transform.real_size,
    ) by {
        lemma_update_resolves_subtree_w(
            pre.children@[i],
            post.children@[i],
            vault,
            t2.real_position,
            t2.real_size,
        );
    }
}

/// `lemma_update_resolves_subtree` for a forced widget.
pub proof fn lemma_update_resolves_subtree_w(
    w: Widget,
    w2: Widget,
    vault: Vault,
    ppos: VecF2,
    psize: VecF2,
)
    requires
        updated_widget(w, w2, vault, ppos, psize, true),
    ensures
        subtree_resolved_w(w2, ppos, psize),
    decreases w, 0int,
{
    match w {
        Widget::Node(a) => {
            match w2 {
                Widget::Node(b) => {
                    lemma_update_resolves_subtree(a, b, vault, ppos, psize, true, None);
                },
                _ => {},
            }
        },
        Widget::Image(a) => {
            match w2 {
                Widget::Image(b) => {
                    lemma_update_resolves_subtree(
                        a.element,
                        b.element,
                        vault,
                        ppos,
                        psize,
                        true,
                        None,
                    );
                },
                _ => {},
            }
        },
        Widget::Panel(a) => {
            match w2 {
                Widget::Panel(b) => {
                    lemma_update_resolves_subtree(
                        a.element,
                        b.element,
                        vault,
                        ppos,
                        psize,
                        true,
                        None,
                    );
                },
                _ => {},
            }
        },
        Widget::Label(a) => {
            match w2 {
                Widget::Label(b) => {
                    if a.is_dirty && font_live(vault, a.font_id) && 4 * a.text@.len()
                        <= u32::MAX {
                        lemma_update_resolves_subtree(
                            a.element,
                            b.element,
                            vault,
                            ppos,
                            psize,
                            true,
                            b.element.mesh,
                        );
                    } else {
                        lemma_update_resolves_subtree(
                            a.element,
                            b.element,
                            vault,
                            ppos,
                            psize,
                            true,
                            None,
                        );
                    }
                },
                _ => {},
            }
        },
    }
}

/// Layout coordinates small enough that the layout arithmetic below is
/// exact (no saturation).
pub open spec fn in_layout_range(v: Fx) -> bool {
    -0x7FFF_FFFF_FFFFint <= v.raw <= 0x7FFF_FFFF_FFFFint
}

/// Centred round trip: a node without a mesh whose anchors and pivot
/// all sit at one fraction `c` of the parent, with no declarative
/// offset, resolves to the parent position plus `c` of the parent size
/// minus `c` of the node's own final size — for the midpoint, the
/// parent's centre minus half the node's final size.
pub proof fn lemma_centered_round_trip(t: Transform, ppos: VecF2, psize: VecF2)
    requires
        t.anchor_min == t.pivot,
        t.anchor_max == t.pivot,
        t.position == (VecF2 { x: fxv(0), y: fxv(0) }),
    ensures
        ({
            let r = spec_calc_transform(t, None, ppos, psize);
            &&& r.real_position.x.v() == fx_sub_raw(
                fx_add_raw(ppos.x.v(), fx_mul_raw(psize.x.v(), t.pivot.x.v())),
                fx_mul_raw(t.pivot.x.v(), r.real_size.x.v()),
            )
            &&& r.real_position.y.v() == fx_sub_raw(
                fx_add_raw(ppos.y.v(), fx_mul_raw(psize.y.v(), t.pivot.y.v())),
                fx_mul_raw(t.pivot.y.v(), r.real_size.y.v()),
            )
        }),
{
    crate::fx::lemma_fx_mul_zero(spec_calc_transform(t, None, ppos, psize).real_size.x.v());
    crate::fx::lemma_fx_mul_zero(spec_calc_transform(t, None, ppos, psize).real_size.y.v());
}

/// Stretch behaviour: anchors spanning the parent's full width with no
/// declarative width resolve the node's real width to exactly the
/// parent's real width, whatever the node's mesh, scale or flags.
pub proof fn lemma_stretch_spans_parent(
    t: Transform,
    mb: Option<Rect>,
    ppos: VecF2,
    psize: VecF2,
)
    requires
        t.anchor_min.x == fxv(0),
        t.anchor_max.x == fxv(FX_SCALE as int),
        t.size.x == fxv(0),
        in_layout_range(psize.x),
    ensures
        spec_calc_transform(t, mb, ppos, psize).real_size.x == psize.x,
{
    crate::fx::lemma_fx_mul_one(psize.x.v());
    crate::fx::lemma_fx_mul_zero(psize.x.v());
}

} // verus!
