//! The G clef.

use vstd::prelude::*;

use crate::glyph::{font_outline, glyph_new, GlyphOutline};
use crate::output::{append_glyph, doc_shapes, Shape};
use crate::render::{pos_ok, Draw, Renderer};

verus! {

/// The G-clef character.
pub const CLEF_CHAR: char = '\u{1d11e}';

/// Font size of the clef glyph, in quarter units: ten note heights.
pub open spec fn clef_size(note_ry: int) -> int {
    40 * note_ry
}

/// The clef glyph of a measure, built once at the configured size and
/// reused for placement decisions by its owner.
pub struct Clef<'r> {
    pub glyph: GlyphOutline<'r>,
}

impl<'r> Clef<'r> {
    /// The width a clef reserves, given the measured width of its
    /// outline's bounding box in quarter units: that box in base units,
    /// plus the configured padding.
    pub fn reserve_width(box_width: i64, renderer: &Renderer) -> (w: i64)
        requires
            renderer.wf(),
            0 <= box_width,
        ensures
            w as int == box_width as int / 4 + renderer.padding as int,
    {
        box_width / 4 + renderer.padding
    }

    /// Builds the clef glyph at ten note heads, measures it, and
    /// returns the clef with the width it reserves: the glyph's
    /// bounding-box width plus the configured padding. `None` exactly
    /// when the font gives the clef character no outline.
    pub fn new(renderer: &'r Renderer) -> (r: Option<(Clef<'r>, i64)>)
        requires
            renderer.wf(),
        ensures
            r is Some <==> font_outline(renderer.font, CLEF_CHAR),
            r matches Some(p) ==> p.0.glyph.ch_spec() == CLEF_CHAR && p.0.glyph.size_spec()
                as int == clef_size(renderer.note_ry as int) && p.1 as int
                == p.0.glyph.box_width_spec() as int / 4 + renderer.padding as int && p.1 as int
                >= renderer.padding as int,
    {
        let size = 40 * renderer.note_ry;
        match glyph_new(&renderer.font, CLEF_CHAR, size) {
            None => None,
            Some(glyph) => {
                let width = Clef::reserve_width(glyph.box_width(), renderer);
                Some((Clef { glyph }, width))
            },
        }
    }
}

impl Draw for Clef<'_> {
    /// One glyph outline path, anchored one note height above the given
    /// baseline to centre the clef on it.
    open spec fn draw_shapes(&self, x: i64, y: i64, renderer: &Renderer) -> Seq<Shape> {
        seq![
            (Shape::Glyph {
                ch: self.glyph.ch_spec(),
                size: self.glyph.size_spec() as int,
                x: 4 * x as int,
                y: 4 * y as int - 4 * renderer.note_ry as int,
            }),
        ]
    }

    open spec fn draw_req(&self, x: i64, y: i64, renderer: &Renderer) -> bool {
        renderer.wf() && pos_ok(x as int) && pos_ok(y as int)
    }

    fn draw(&self, x: i64, y: i64, renderer: &Renderer, node: &mut svg::Document) {
        append_glyph(node, &self.glyph, 4 * x, 4 * y - 4 * renderer.note_ry);
        proof {
            assert(doc_shapes(*node) =~= doc_shapes(*old(node)) + self.draw_shapes(
                x,
                y,
                renderer,
            ));
        }
    }
}

} // verus!
