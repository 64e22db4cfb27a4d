//! Glyph atlas packing: the placement logic that lays rasterized glyph
//! rectangles out in rows of a square atlas texture, with a 3-pixel
//! border and 1-pixel spacing, wrapping to a new row when a glyph would
//! leave the right edge.
//!
//! Rasterizing glyphs and copying their pixels happens outside this
//! library; this module decides where every glyph goes and what its
//! metrics are, and reports an atlas overflow as an ordinary `None`.

use vstd::prelude::*;
use crate::asset::GlyphMetrics;
use crate::fx::{Fx, fxv, fx_div_raw, FX_SCALE};
use crate::rect::Region;
use crate::vec2::VecF2;

verus! {

/// One rasterized glyph as the packer sees it: its cell size in pixels,
/// its placement offsets, and its advance width.
#[derive(Clone, Copy, Debug, PartialEq, Eq, Structural)]
pub struct RawGlyph {
    pub ch: char,
    pub width: usize,
    pub height: usize,
    pub xmin: i32,
    pub ymin: i32,
    pub advance: Fx,
}

/// Where one glyph's pixels go in the atlas.
#[derive(Clone, Copy, Debug, PartialEq, Eq, Structural)]
pub struct GlyphPlacement {
    pub ch: char,
    pub x: usize,
    pub y: usize,
    pub width: usize,
    pub height: usize,
}

/// Packing cursor after the first `n` glyphs: pen x, row y, and the
/// tallest glyph of the current row.
pub open spec fn spec_pack_state(gs: Seq<RawGlyph>, atlas: int, n: int) -> (int, int, int)
    decreases n,
{
    if n <= 0 || n > gs.len() {
        (3, 3, 0)
    } else {
        let (cx, cy, mh) = spec_pack_state(gs, atlas, n - 1);
        let g = gs[n - 1];
        let px = if cx + g.width > atlas {
            3
        } else {
            cx
        };
        let py = if cx + g.width > atlas {
            cy + mh + 3
        } else {
            cy
        };
        let row_h = if cx + g.width > atlas {
            0
        } else {
            mh
        };
        (
            px + g.width + 1,
            py,
            if g.height > row_h {
                g.height as int
            } else {
                row_h
            },
        )
    }
}

/// Where glyph `k` lands: the pen position, or the start of a fresh row
/// when the glyph would leave the right edge.
pub open spec fn spec_place(gs: Seq<RawGlyph>, atlas: int, k: int) -> (int, int) {
    let (cx, cy, mh) = spec_pack_state(gs, atlas, k);
    if cx + gs[k].width > atlas {
        (3, cy + mh + 3)
    } else {
        (cx, cy)
    }
}

/// Whether glyph `k`'s placed rectangle lies inside the atlas.
pub open spec fn spec_fits(gs: Seq<RawGlyph>, atlas: int, k: int) -> bool {
    let (px, py) = spec_place(gs, atlas, k);
    px + gs[k].width <= atlas && py + gs[k].height <= atlas
}

/// An atlas pixel coordinate as a fraction of the atlas size.
pub open spec fn spec_uv(p: int, atlas: int) -> Fx {
    fxv(fx_div_raw(p * FX_SCALE as int, atlas * FX_SCALE as int))
}

/// The metrics entry glyph `k` gets: its atlas region in normalized
/// coordinates and its layout offsets and advance.
pub open spec fn spec_glyph_metrics(gs: Seq<RawGlyph>, atlas: int, k: int) -> GlyphMetrics {
    let (px, py) = spec_place(gs, atlas, k);
    let g = gs[k];
    GlyphMetrics {
        uv: Region {
            pos00: VecF2 { x: spec_uv(px, atlas), y: spec_uv(py, atlas) },
            pos11: VecF2 {
                x: spec_uv(px + g.width, atlas),
                y: spec_uv(py + g.height, atlas),
            },
        },
        size: VecF2 { x: fxv(g.width * FX_SCALE as int), y: fxv(g.height * FX_SCALE as int) },
        offset: VecF2 { x: fxv(g.xmin * FX_SCALE as int), y: fxv(g.ymin * FX_SCALE as int) },
        advance: g.advance,
    }
}

/// The packer's output for the first `n` glyphs is correct: one
/// placement and one metrics entry per glyph, each as the placement
/// fold assigns them.
pub open spec fn spec_pack_ok(
    gs: Seq<RawGlyph>,
    atlas: int,
    n: int,
    placements: Seq<GlyphPlacement>,
    metrics: Seq<(char, GlyphMetrics)>,
) -> bool {
    &&& placements.len() == n
    &&& metrics.len() == n
    &&& forall|k: int|
        0 <= k < n ==> (#[trigger] placements[k]) == (GlyphPlacement {
            ch: gs[k].ch,
            x: spec_place(gs, atlas, k).0 as usize,
            y: spec_place(gs, atlas, k).1 as usize,
            width: gs[k].width,
            height: gs[k].height,
        })
    &&& forall|k: int|
        0 <= k < n ==> (#[trigger] metrics[k]).0 == gs[k].ch && metrics[k].1
            == spec_glyph_metrics(gs, atlas, k)
}

/// Lay every glyph out in the atlas. Succeeds iff every glyph's placed
/// rectangle stays inside the atlas, and then returns, per glyph, the
/// pixel placement for the blit and the metrics entry for the font.
pub fn pack_glyph_metrics(atlas_size: usize, glyphs: &Vec<RawGlyph>) -> (r: Option<
    (Vec<GlyphPlacement>, Vec<(char, GlyphMetrics)>),
>)
    requires
        1 <= atlas_size <= 0x0100_0000,
        forall|k: int|
            0 <= k < glyphs@.len() ==> (#[trigger] glyphs@[k]).width <= 0x0100_0000
                && glyphs@[k].height <= 0x0100_0000,
    ensures
        r is Some <==> (forall|k: int|
            0 <= k < glyphs@.len() ==> spec_fits(glyphs@, atlas_size as int, k)),
        r matches Some(pair) ==> spec_pack_ok(
            glyphs@,
            atlas_size as int,
            glyphs@.len() as int,
            pair.0@,
            pair.1@,
        ),
{
    let ghost gs = glyphs@;
    let ghost atlas_int = atlas_size as int;
    let atlas_fx = Fx::from_int(atlas_size as i32);
    let mut placements: Vec<GlyphPlacement> = Vec::new();
    let mut metrics: Vec<(char, GlyphMetrics)> = Vec::new();
    let mut cur_x: usize = 3;
    let mut cur_y: usize = 3;
    let mut max_row_height: usize = 0;
    let mut i: usize = 0;
    while i < glyphs.len()
        invariant
            gs == glyphs@,
            atlas_int == atlas_size as int,
            1 <= atlas_size <= 0x0100_0000,
            atlas_fx.v() == atlas_size * FX_SCALE as int,
            forall|k: int|
                0 <= k < gs.len() ==> (#[trigger] gs[k]).width <= 0x0100_0000 && gs[k].height
                    <= 0x0100_0000,
            i <= gs.len(),
            (cur_x as int, cur_y as int, max_row_height as int) == spec_pack_state(
                gs,
                atlas_int,
                i as int,
            ),
            cur_x <= 0x0300_0000,
            cur_y <= 0x0100_0000,
            max_row_height <= 0x0100_0000,
            forall|k: int| 0 <= k < i ==> spec_fits(gs, atlas_int, k),
            spec_pack_ok(gs, atlas_int, i as int, placements@, metrics@),
        decreases gs.len() - i,
    {
        let g: RawGlyph = glyphs[i];
        let wrap: bool = cur_x + g.width > atlas_size;
        let px: usize = if wrap {
            3
        } else {
            cur_x
        };
        let py: usize = if wrap {
            cur_y + max_row_height + 3
        } else {
            cur_y
        };
        if px + g.width > atlas_size || py + g.height > atlas_size {
            proof {
                assert(!spec_fits(gs, atlas_int, i as int));
            }
            return None;
        }
        let u0 = Fx::from_int(px as i32).div(atlas_fx);
        let v0 = Fx::from_int(py as i32).div(atlas_fx);
        let u1 = Fx::from_int((px + g.width) as i32).div(atlas_fx);
        let v1 = Fx::from_int((py + g.height) as i32).div(atlas_fx);
        placements.push(
            GlyphPlacement { ch: g.ch, x: px, y: py, width: g.width, height: g.height },
        );
        metrics.push(
            (
                g.ch,
                GlyphMetrics {
                    uv: Region {
                        pos00: VecF2 { x: u0, y: v0 },
                        pos11: VecF2 { x: u1, y: v1 },
                    },
                    size: VecF2 {
                        x: Fx::from_int(g.width as i32),
                        y: Fx::from_int(g.height as i32),
                    },
                    offset: VecF2 { x: Fx::from_int(g.xmin), y: Fx::from_int(g.ymin) },
                    advance: g.advance,
                },
            ),
        );
        cur_x = px + g.width + 1;
        cur_y = py;
        max_row_height = if wrap {
            g.height
        } else if g.height > max_row_height {
            g.height
        } else {
            max_row_height
        };
        i = i + 1;
    }
    Some((placements, metrics))
}

} // verus!
