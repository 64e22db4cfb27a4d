//! Assets owned by the vault: the concrete resource types, the type-erased
//! `Asset` value that stores any of them, and the `Downcast` capability
//! for safe, total recovery of the concrete type.
//!
//! GPU objects themselves live outside this library; an asset records the
//! plain data the core reads (object names, sizes, glyph metrics).

use vstd::prelude::*;
use crate::fx::Fx;
use crate::rect::Region;
use crate::vec2::VecF2;
use crate::vault::AssetId;

verus! {

/// A two-dimensional texture: the GPU object name and its dimensions.
#[derive(Clone, Copy, Debug, PartialEq, Eq, Structural)]
pub struct Texture2D {
    pub texture: u32,
    pub width: u32,
    pub height: u32,
}

impl Texture2D {
    pub fn new(texture: u32, width: u32, height: u32) -> (r: Texture2D)
        ensures
            r == (Texture2D { texture, width, height }),
    {
        Texture2D { texture, width, height }
    }

    pub fn get_size(&self) -> (r: (u32, u32))
        ensures
            r.0 == self.width,
            r.1 == self.height,
    {
        (self.width, self.height)
    }
}

/// A compiled and linked shader: the GPU program name.
#[derive(Clone, Copy, Debug, PartialEq, Eq, Structural)]
pub struct Shader {
    pub program: u32,
}

impl Shader {
    pub fn new(program: u32) -> (r: Shader)
        ensures
            r == (Shader { program }),
    {
        Shader { program }
    }

    pub fn get_program(&self) -> (r: u32)
        ensures
            r == self.program,
    {
        self.program
    }
}

/// Placement and advance of one rasterized glyph inside a font atlas.
#[derive(Clone, Copy, Debug, PartialEq, Eq, Structural)]
pub struct GlyphMetrics {
    pub uv: Region,
    pub size: VecF2,
    pub offset: VecF2,
    pub advance: Fx,
}

/// First glyph entry for `c`, scanning left to right.
pub open spec fn spec_find_glyph(s: Seq<(char, GlyphMetrics)>, c: char) -> Option<GlyphMetrics>
    decreases s.len(),
{
    if s.len() == 0 {
        None
    } else if s[0].0 == c {
        Some(s[0].1)
    } else {
        spec_find_glyph(s.drop_first(), c)
    }
}

/// A bitmap font: per-character glyph metrics and the handle of the
/// atlas texture the glyphs were packed into. The font owns that
/// texture entry and releases it when the font itself is removed.
#[derive(Clone, Debug)]
pub struct FontBitmap {
    pub glyphs: Vec<(char, GlyphMetrics)>,
    pub texture_id: AssetId,
    pub line_height: Fx,
}

impl FontBitmap {
    pub fn new(glyphs: Vec<(char, GlyphMetrics)>, texture_id: AssetId, line_height: Fx) -> (r:
        FontBitmap)
        ensures
            r == (FontBitmap { glyphs, texture_id, line_height }),
    {
        FontBitmap { glyphs, texture_id, line_height }
    }

    pub fn get_texture_id(&self) -> (r: AssetId)
        ensures
            r == self.texture_id,
    {
        self.texture_id
    }

    pub fn get_glyph_metrics(&self, c: char) -> (r: Option<&GlyphMetrics>)
        ensures
            match r {
                Some(g) => spec_find_glyph(self.glyphs@, c) == Some(*g),
                None => spec_find_glyph(self.glyphs@, c) is None,
            },
    {
        proof {
            assert(self.glyphs@.skip(0) =~= self.glyphs@);
        }
        let mut i: usize = 0;
        while i < self.glyphs.len()
            invariant
                i <= self.glyphs@.len(),
                spec_find_glyph(self.glyphs@, c) == spec_find_glyph(self.glyphs@.skip(i as int), c),
            decreases self.glyphs@.len() - i,
        {
            proof {
                assert(self.glyphs@.skip(i as int).drop_first() =~= self.glyphs@.skip(i as int + 1));
                assert(self.glyphs@.skip(i as int)[0] == self.glyphs@[i as int]);
            }
            if self.glyphs[i].0 == c {
                return Some(&self.glyphs[i].1);
            }
            i = i + 1;
        }
        proof {
            assert(self.glyphs@.skip(i as int) =~= Seq::<(char, GlyphMetrics)>::empty());
        }
        None
    }
}

/// The type-erased value an arena slot of the vault stores: any one of
/// the concrete asset types.
#[derive(Clone, Debug)]
pub enum Asset {
    Texture(Texture2D),
    Shader(Shader),
    Font(FontBitmap),
}

impl Asset {
    /// The entry this asset privately owns and releases on its own
    /// removal: a font frees its atlas texture; other assets own nothing.
    pub open spec fn release_target(self) -> Option<AssetId> {
        match self {
            Asset::Font(f) => Some(f.texture_id),
            _ => None,
        }
    }
}

/// Downcast through an optional asset: what a vault lookup followed by
/// a typed downcast yields.
pub open spec fn downcast_opt<A: Downcast>(a: Option<Asset>) -> Option<A> {
    match a {
        Some(x) => A::spec_downcast(x),
        None => None,
    }
}

/// Safe runtime recovery of a concrete asset type from a type-erased
/// `Asset`: a mismatch is an ordinary `None`, never a fault.
pub trait Downcast: Sized {
    /// The `Asset` value that stores `self`.
    spec fn wrap(self) -> Asset;

    /// What downcasting an `Asset` to `Self` yields.
    spec fn spec_downcast(a: Asset) -> Option<Self>;

    /// Downcasting recovers exactly the wrapped value.
    proof fn lemma_wrap_downcast(x: Self)
        ensures
            Self::spec_downcast(x.wrap()) == Some(x),
    ;

    fn into_asset(self) -> (r: Asset)
        ensures
            r == self.wrap(),
    ;

    fn from_asset(a: &Asset) -> (r: Option<&Self>)
        ensures
            match r {
                Some(v) => Self::spec_downcast(*a) == Some(*v),
                None => Self::spec_downcast(*a) is None,
            },
    ;

    fn from_asset_mut(a: &mut Asset) -> (r: Option<&mut Self>)
        ensures
            match r {
                Some(v) => {
                    &&& Self::spec_downcast(*old(a)) == Some(*v)
                    &&& *final(a) == (*final(v)).wrap()
                },
                None => {
                    &&& Self::spec_downcast(*old(a)) is None
                    &&& *final(a) == *old(a)
                },
            },
    ;
}

impl Downcast for Texture2D {
    open spec fn wrap(self) -> Asset {
        Asset::Texture(self)
    }

    open spec fn spec_downcast(a: Asset) -> Option<Texture2D> {
        match a {
            Asset::Texture(t) => Some(t),
            _ => None,
        }
    }

    proof fn lemma_wrap_downcast(x: Texture2D) {
    }

    fn into_asset(self) -> (r: Asset) {
        Asset::Texture(self)
    }

    fn from_asset(a: &Asset) -> (r: Option<&Texture2D>) {
        match a {
            Asset::Texture(t) => Some(t),
            _ => None,
        }
    }

    fn from_asset_mut(a: &mut Asset) -> (r: Option<&mut Texture2D>) {
        match a {
            Asset::Texture(t) => Some(t),
            _ => None,
        }
    }
}

impl Downcast for Shader {
    open spec fn wrap(self) -> Asset {
        Asset::Shader(self)
    }

    open spec fn spec_downcast(a: Asset) -> Option<Shader> {
        match a {
            Asset::Shader(s) => Some(s),
            _ => None,
        }
    }

    proof fn lemma_wrap_downcast(x: Shader) {
    }

    fn into_asset(self) -> (r: Asset) {
        Asset::Shader(self)
    }

    fn from_asset(a: &Asset) -> (r: Option<&Shader>) {
        match a {
            Asset::Shader(s) => Some(s),
            _ => None,
        }
    }

    fn from_asset_mut(a: &mut Asset) -> (r: Option<&mut Shader>) {
        match a {
            Asset::Shader(s) => Some(s),
            _ => None,
        }
    }
}

impl Downcast for FontBitmap {
    open spec fn wrap(self) -> Asset {
        Asset::Font(self)
    }

    open spec fn spec_downcast(a: Asset) -> Option<FontBitmap> {
        match a {
            Asset::Font(f) => Some(f),
            _ => None,
        }
    }

    proof fn lemma_wrap_downcast(x: FontBitmap) {
    }

    fn into_asset(self) -> (r: Asset) {
        Asset::Font(self)
    }

    fn from_asset(a: &Asset) -> (r: Option<&FontBitmap>) {
        match a {
            Asset::Font(f) => Some(f),
            _ => None,
        }
    }

    fn from_asset_mut(a: &mut Asset) -> (r: Option<&mut FontBitmap>) {
        match a {
            Asset::Font(f) => Some(f),
            _ => None,
        }
    }
}

} // verus!
