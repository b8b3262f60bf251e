//! Glyph outlines from the font resource.
//!
//! The font and the per-glyph outline are opaque values of the
//! `rusttype` and `text_svg` crates (the latter spells its glyph type
//! `Glpyh`). A [`GlyphOutline`] pairs the outline with the character,
//! the font size and the measured bounding-box width it was built with,
//! so contracts can say which glyph a drawn shape is and how wide it
//! measures, without looking inside the outline itself. Only
//! [`glyph_new`] builds values of it, which keeps those records true.

use vstd::prelude::*;

verus! {

#[verifier::external_type_specification]
#[verifier::external_body]
pub struct ExFont<'a>(rusttype::Font<'a>);

#[verifier::external_type_specification]
#[verifier::external_body]
pub struct ExGlpyh<'a>(text_svg::Glpyh<'a>);

/// Whether byte data parses as a usable font. The parse is a pure
/// function of the bytes; [`font_from_vec`] decides it.
pub uninterp spec fn font_parses(data: Seq<u8>) -> bool;

/// Whether the font resource gives a character a drawable outline: its
/// character map resolves the character to a glyph the font actually
/// holds, and that glyph has outline data. A pure function of the font
/// and the character, independent of the requested size;
/// [`glyph_new`] decides it.
pub uninterp spec fn font_outline(font: rusttype::Font<'static>, ch: char) -> bool;

/// A drawable glyph outline, remembering the character, the font size
/// (in quarter units) and the measured bounding-box width (in whole
/// quarter units, never negative) it was built with.
pub struct GlyphOutline<'a> {
    pub(crate) outline: text_svg::Glpyh<'a>,
    pub(crate) ch: char,
    pub(crate) size: i64,
    pub(crate) box_width: i64,
}

impl<'a> GlyphOutline<'a> {
    /// The character this outline draws.
    pub closed spec fn ch_spec(&self) -> char {
        self.ch
    }

    /// The font size the outline was built at, in quarter units.
    pub closed spec fn size_spec(&self) -> i64 {
        self.size
    }

    /// The measured width of the outline's bounding box, in whole
    /// quarter units; never negative.
    pub closed spec fn box_width_spec(&self) -> i64 {
        self.box_width
    }

    /// Reads the measured bounding-box width.
    pub fn box_width(&self) -> (w: i64)
        ensures
            w == self.box_width_spec(),
    {
        self.box_width
    }
}

/// Relies on `rusttype::Font::try_from_vec`: parses the font data,
/// returning `Some` exactly when the data is a usable font.
#[verifier::external_body]
pub(crate) fn font_from_vec(data: Vec<u8>) -> (r: Option<rusttype::Font<'static>>)
    ensures
        r is Some <==> font_parses(data@),
{
    rusttype::Font::try_from_vec(data)
}

/// Relies on rusttype's `IntoGlyphId`, `Font::glyph_count`,
/// `ScaledGlyph::exact_bounding_box` and `text_svg::Glpyh::new`: builds
/// the outline of `ch` at font size `size`, with its bounding-box width
/// measured (truncated to whole units, clamped at zero — a font whose
/// line metrics are inverted can yield a negative scale). Returns
/// `None` exactly when the font gives the character no outline: a
/// character-map entry beyond the font's glyph count, or a glyph
/// without outline data (`Font::glyph` would assert on the former and
/// `Glpyh::new` would panic on the latter, so both are probed first).
#[verifier::external_body]
pub(crate) fn glyph_new<'a>(font: &'a rusttype::Font<'static>, ch: char, size: i64) -> (r: Option<
    GlyphOutline<'a>,
>)
    requires
        0 <= size,
    ensures
        r is Some <==> font_outline(*font, ch),
        r matches Some(g) ==> g.ch_spec() == ch && g.size_spec() == size && g.box_width_spec()
            >= 0,
{
    let id = rusttype::IntoGlyphId::into_glyph_id(ch, font);
    if id.0 as usize >= font.glyph_count() {
        return None;
    }
    let scaled = font.glyph(id).scaled(rusttype::Scale::uniform(size as _));
    let width = match scaled.exact_bounding_box() {
        Some(bounding_box) => bounding_box.width() as i64,
        None => return None,
    };
    let outline = text_svg::Glpyh::new(font, id, size as _);
    Some(GlyphOutline { outline, ch, size, box_width: if width < 0 { 0 } else { width } })
}

} // verus!
