//! Concrete widgets: an image that shows one texture, a text label that
//! regenerates its mesh from glyph metrics, and an empty panel. Each
//! owns exactly one element of the scene graph.

use vstd::prelude::*;
use crate::assoc::assoc_find;
use crate::asset::{Downcast, FontBitmap, GlyphMetrics, Texture2D, spec_find_glyph};
use crate::context::GameContext;
use crate::element::{Element, is_empty_element, spec_transform_default, Transform};
use crate::fx::{Fx, fxv, fx_add_raw, FX_SCALE};
use crate::material::{Material, MaterialTexture};
use crate::mesh::{spec_calc_bounds, spec_quad_vertices, Mesh, VertexPosUv};
use crate::vault::{AssetId, Vault};
use crate::vec2::VecF2;

verus! {

/// Whether a handle currently resolves to a font in the vault.
pub open spec fn font_live(vault: Vault, id: AssetId) -> bool {
    match vault.spec_asset(id) {
        Some(a) => FontBitmap::spec_downcast(a) is Some,
        None => false,
    }
}

/// The font a live handle resolves to.
pub open spec fn font_of(vault: Vault, id: AssetId) -> FontBitmap {
    FontBitmap::spec_downcast(vault.spec_asset(id).unwrap()).unwrap()
}

/// Geometry of the first `n` characters of a text: the glyph quads, the
/// triangle indices, and the pen position after them. A character the
/// font has no glyph for advances nothing and emits nothing, but still
/// consumes its four-vertex index slot, mirroring the per-character
/// index base.
pub open spec fn spec_text_geom(f: FontBitmap, text: Seq<char>, n: int) -> (
    Seq<VertexPosUv>,
    Seq<u32>,
    int,
)
    decreases n,
{
    if n <= 0 {
        (Seq::<VertexPosUv>::empty(), Seq::<u32>::empty(), 0int)
    } else {
        let (vs, inds, cur) = spec_text_geom(f, text, n - 1);
        match spec_find_glyph(f.glyphs@, text[n - 1]) {
            None => (vs, inds, cur),
            Some(g) => {
                let x0 = fx_add_raw(cur, g.offset.x.v());
                let y0 = g.offset.y.v();
                let x1 = fx_add_raw(x0, g.size.x.v());
                let y1 = fx_add_raw(y0, g.size.y.v());
                let u0 = g.uv.pos00.x;
                let v0 = g.uv.pos11.y;
                let u1 = g.uv.pos11.x;
                let v1 = g.uv.pos00.y;
                let base = (4 * (n - 1)) as u32;
                let quad = seq![
                    VertexPosUv { pos: VecF2 { x: fxv(x0), y: fxv(y0) }, uv: VecF2 { x: u0, y: v0 } },
                    VertexPosUv { pos: VecF2 { x: fxv(x1), y: fxv(y0) }, uv: VecF2 { x: u1, y: v0 } },
                    VertexPosUv { pos: VecF2 { x: fxv(x1), y: fxv(y1) }, uv: VecF2 { x: u1, y: v1 } },
                    VertexPosUv { pos: VecF2 { x: fxv(x0), y: fxv(y1) }, uv: VecF2 { x: u0, y: v1 } },
                ];
                let tri = seq![
                    base,
                    (base + 1) as u32,
                    (base + 2) as u32,
                    base,
                    (base + 2) as u32,
                    (base + 3) as u32,
                ];
                (vs + quad, inds + tri, fx_add_raw(cur, g.advance.v()))
            },
        }
    }
}

/// A mesh holds exactly the geometry of `text` under font `f`.
pub open spec fn is_text_mesh(m: Mesh, f: FontBitmap, text: Seq<char>) -> bool {
    &&& m.vertices@ == spec_text_geom(f, text, text.len() as int).0
    &&& m.indices@ == spec_text_geom(f, text, text.len() as int).1
    &&& m.bounds == spec_calc_bounds(m.vertices@)
}

/// Build the mesh for `text`: one textured quad per glyph, advanced by
/// the glyph's advance width, with the glyph's atlas region as texture
/// coordinates.
pub fn build_text_mesh(font: &FontBitmap, text: &str) -> (r: Mesh)
    requires
        4 * text@.len() <= u32::MAX,
    ensures
        is_text_mesh(r, *font, text@),
{
    let len: usize = text.unicode_len();
    let mut vertices: Vec<VertexPosUv> = Vec::new();
    let mut indices: Vec<u32> = Vec::new();
    let mut cursor: Fx = Fx::zero();
    let mut i: usize = 0;
    while i < len
        invariant
            4 * text@.len() <= u32::MAX,
            len == text@.len(),
            i <= len,
            vertices@ == spec_text_geom(*font, text@, i as int).0,
            indices@ == spec_text_geom(*font, text@, i as int).1,
            cursor.v() == spec_text_geom(*font, text@, i as int).2,
        decreases len - i,
    {
        let c: char = text.get_char(i);
        let ghost prev_vs = vertices@;
        let ghost prev_inds = indices@;
        let ghost prev_cur = cursor.v();
        match font.get_glyph_metrics(c) {
            Some(glyph) => {
                let x0 = cursor.add(glyph.offset.x);
                let y0 = glyph.offset.y;
                let x1 = x0.add(glyph.size.x);
                let y1 = y0.add(glyph.size.y);
                let u0 = glyph.uv.pos00.x;
                let v0 = glyph.uv.pos11.y;
                let u1 = glyph.uv.pos11.x;
                let v1 = glyph.uv.pos00.y;
                let base: u32 = (i as u32) * 4;
                vertices.push(VertexPosUv { pos: VecF2 { x: x0, y: y0 }, uv: VecF2 { x: u0, y: v0 } });
                vertices.push(VertexPosUv { pos: VecF2 { x: x1, y: y0 }, uv: VecF2 { x: u1, y: v0 } });
                vertices.push(VertexPosUv { pos: VecF2 { x: x1, y: y1 }, uv: VecF2 { x: u1, y: v1 } });
                vertices.push(VertexPosUv { pos: VecF2 { x: x0, y: y1 }, uv: VecF2 { x: u0, y: v1 } });
                indices.push(base);
                indices.push(base + 1);
                indices.push(base + 2);
                indices.push(base);
                indices.push(base + 2);
                indices.push(base + 3);
                cursor = cursor.add(glyph.advance);
                proof {
                    assert(vertices@ =~= prev_vs + spec_text_geom(*font, text@, i as int + 1).0.skip(
                        prev_vs.len() as int,
                    ));
                    assert(vertices@ =~= spec_text_geom(*font, text@, i as int + 1).0);
                    assert(indices@ =~= spec_text_geom(*font, text@, i as int + 1).1);
                }
            },
            None => {
                proof {
                    assert(spec_text_geom(*font, text@, i as int + 1).0 == prev_vs);
                    assert(spec_text_geom(*font, text@, i as int + 1).1 == prev_inds);
                    assert(spec_text_geom(*font, text@, i as int + 1).2 == prev_cur);
                }
            },
        }
        i = i + 1;
    }
    Mesh::new(vertices, indices)
}

/// A widget that draws one texture at its natural size.
pub struct Image {
    pub element: Element,
}

impl Image {
    /// Builds the quad and texture binding for the texture behind
    /// `texture_id`, sized to the texture's dimensions; if the handle
    /// does not resolve to a texture the image is an empty element.
    pub fn new(ctx: &mut GameContext, shader_id: AssetId, texture_id: AssetId) -> (r: Image)
        ensures
            *final(ctx) == *old(ctx),
            match crate::asset::downcast_opt::<Texture2D>(old(ctx).vault.spec_asset(texture_id)) {
                Some(t) => {
                    &&& r.element.is_dirty
                    &&& r.element.name@.len() == 0
                    &&& r.element.children@.len() == 0
                    &&& r.element.transform == (Transform {
                        size: VecF2 {
                            x: fxv(t.width * FX_SCALE as int),
                            y: fxv(t.height * FX_SCALE as int),
                        },
                        ..spec_transform_default()
                    })
                    &&& r.element.mesh matches Some(m) && m.vertices@ == spec_quad_vertices(
                        VecF2 { x: fxv(0), y: fxv(0) },
                        VecF2 { x: fxv(FX_SCALE as int), y: fxv(FX_SCALE as int) },
                    ) && m.indices@ == seq![0u32, 1u32, 3u32, 1u32, 2u32, 3u32]
                    &&& r.element.material matches Some(mat) && mat.shader_id == shader_id
                        && mat.properties@.len() == 0 && (mat.shader_live(old(ctx).vault)
                        ==> assoc_find(mat.textures@, "u_texture"@) == Some(
                        MaterialTexture { active_unit: 0, value: texture_id },
                    )) && (!mat.shader_live(old(ctx).vault) ==> mat.textures@.len() == 0)
                },
                None => is_empty_element(r.element),
            },
    {
        let texture_size: Option<(u32, u32)> = match ctx.get_vault().get::<Texture2D>(texture_id) {
            Some(texture) => Some(texture.get_size()),
            None => None,
        };
        match texture_size {
            Some((width, height)) => {
                let mesh = Mesh::new_quad(VecF2::zero(), VecF2::one());
                let mut material = Material::new(shader_id);
                material.set_texture2d(ctx, "u_texture", texture_id, 0);
                let mut element = Element::new(mesh, material);
                element.set_size(VecF2::new(Fx::from_uint(width), Fx::from_uint(height)));
                Image { element }
            },
            None => Image { element: Element::empty() },
        }
    }
}

/// A widget that draws a line of text with a bitmap font.
pub struct Label {
    pub element: Element,
    pub font_id: AssetId,
    pub text: String,
    pub is_dirty: bool,
}

impl Label {
    /// Sets up an empty text mesh bound to the font's atlas texture; if
    /// the handle does not resolve to a font the label is an empty
    /// element. Text meshes keep their natural glyph size, so the
    /// element neither scales with its size nor preserves a mesh origin.
    pub fn new(ctx: &GameContext, font_id: AssetId, shader_id: AssetId) -> (r: Label)
        ensures
            r.font_id == font_id,
            r.text@.len() == 0,
            !r.is_dirty,
            font_live(ctx.vault, font_id) ==> {
                &&& r.element.is_dirty
                &&& r.element.name@.len() == 0
                &&& r.element.children@.len() == 0
                &&& r.element.transform == (Transform {
                    scale_with_size: false,
                    preserve_mesh_origin: false,
                    ..spec_transform_default()
                })
                &&& r.element.mesh matches Some(m) && m.vertices@.len() == 0 && m.indices@.len()
                    == 0
                &&& r.element.material matches Some(mat) && mat.shader_id == shader_id
                    && mat.properties@.len() == 0 && (mat.shader_live(ctx.vault) ==> assoc_find(
                    mat.textures@,
                    "u_texture"@,
                ) == Some(
                    MaterialTexture {
                        active_unit: 0,
                        value: font_of(ctx.vault, font_id).texture_id,
                    },
                )) && (!mat.shader_live(ctx.vault) ==> mat.textures@.len() == 0)
            },
            !font_live(ctx.vault, font_id) ==> is_empty_element(r.element),
    {
        let font_texture: Option<AssetId> = match ctx.get_vault().get::<FontBitmap>(font_id) {
            Some(font) => Some(font.get_texture_id()),
            None => None,
        };
        match font_texture {
            Some(texture_id) => {
                let mut material = Material::new(shader_id);
                material.set_texture2d(ctx, "u_texture", texture_id, 0);
                let mesh = Mesh::new(Vec::new(), Vec::new());
                let mut element = Element::new(mesh, material);
                element.set_scale_with_size(false);
                element.set_preserve_mesh_origin(false);
                Label { element, font_id, text: String::new(), is_dirty: false }
            },
            None => Label {
                element: Element::empty(),
                font_id,
                text: String::new(),
                is_dirty: false,
            },
        }
    }

    pub fn set_text(&mut self, text: &str)
        ensures
            final(self).text@ == text@,
            final(self).is_dirty,
            final(self).element == old(self).element,
            final(self).font_id == old(self).font_id,
    {
        self.text = text.to_owned();
        self.is_dirty = true;
    }

    /// The per-frame hook that runs before the element updates: while
    /// the text is marked dirty, rebuild the mesh from the font's glyph
    /// metrics. A missing font, or a text too long for 32-bit indices,
    /// leaves the old mesh in place; either way the text-dirty mark is
    /// cleared.
    pub fn begin_update(&mut self, ctx: &GameContext)
        ensures
            !final(self).is_dirty,
            final(self).font_id == old(self).font_id,
            final(self).text == old(self).text,
            old(self).is_dirty && font_live(ctx.vault, old(self).font_id) && 4 * old(
                self,
            ).text@.len() <= u32::MAX ==> {
                &&& final(self).element == (Element {
                    mesh: final(self).element.mesh,
                    ..old(self).element
                })
                &&& final(self).element.mesh matches Some(m) && is_text_mesh(
                    m,
                    font_of(ctx.vault, old(self).font_id),
                    old(self).text@,
                )
            },
            !(old(self).is_dirty && font_live(ctx.vault, old(self).font_id) && 4 * old(
                self,
            ).text@.len() <= u32::MAX) ==> final(self).element == old(self).element,
    {
        if self.is_dirty {
            let can_index: bool = self.text.as_str().unicode_len() <= (u32::MAX / 4) as usize;
            if can_index {
                let mesh_built: Option<Mesh> = match ctx.get_vault().get::<FontBitmap>(
                    self.font_id,
                ) {
                    Some(font) => Some(build_text_mesh(font, self.text.as_str())),
                    None => None,
                };
                match mesh_built {
                    Some(mesh) => {
                        self.element.set_mesh(mesh);
                    },
                    None => {},
                }
            }
            self.is_dirty = false;
        }
    }
}

/// A plain grouping widget: one empty element.
pub struct Panel {
    pub element: Element,
}

impl Panel {
    pub fn new(_ctx: &GameContext) -> (r: Panel)
        ensures
            is_empty_element(r.element),
    {
        Panel { element: Element::empty() }
    }
}

} // verus!
