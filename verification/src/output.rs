//! The output document.
//!
//! The engraving is emitted into an `svg::Document`. Verified code never
//! looks inside that type: its contents are modelled by the ghost
//! sequence [`doc_shapes`], one [`Shape`] per drawable appended, in
//! order, and its declared size by [`doc_width`] and [`doc_height`].
//! The few functions that actually touch the `svg` crate are the trusted
//! wrappers at the bottom of this module; everything drawn goes through
//! them.
//!
//! Coordinates in a [`Shape`], and the width and height of the document,
//! are in quarter units (see the crate documentation).

use vstd::prelude::*;

use crate::glyph::GlyphOutline;
use svg::Node;

verus! {

/// One drawable of the output document.
///
/// A rectangle is white-filled and unstroked; a line is stroked black
/// with the given stroke width; a glyph is the black outline path of the
/// character `ch`, built at font size `size` and anchored at `(x, y)`.
pub enum Shape {
    Rect { x: int, y: int, width: int, height: int },
    Line { x1: int, y1: int, x2: int, y2: int, stroke_width: int },
    Glyph { ch: char, size: int, x: int, y: int },
}

/// The drawables a document holds, in the order they were appended.
pub uninterp spec fn doc_shapes(doc: svg::Document) -> Seq<Shape>;

/// The width attribute a document was created with.
pub uninterp spec fn doc_width(doc: svg::Document) -> int;

/// The height attribute a document was created with.
pub uninterp spec fn doc_height(doc: svg::Document) -> int;

#[verifier::external_type_specification]
#[verifier::external_body]
pub struct ExSvg(svg::node::element::SVG);

/// Relies on `svg::Document::new` and `set`: a fresh document with the
/// given width and height attributes holds no drawables yet.
#[verifier::external_body]
pub(crate) fn new_document(width: i64, height: i64) -> (doc: svg::Document)
    ensures
        doc_width(doc) == width as int,
        doc_height(doc) == height as int,
        doc_shapes(doc) == Seq::<Shape>::empty(),
{
    svg::Document::new().set("width", width).set("height", height)
}

/// Relies on `svg::node::element::Rectangle` and `Node::append`: appends
/// one white-filled rectangle with exactly the given geometry.
#[verifier::external_body]
pub(crate) fn append_rect(doc: &mut svg::Document, x: i64, y: i64, width: i64, height: i64)
    ensures
        doc_shapes(*final(doc)) == doc_shapes(*old(doc)).push(
            (Shape::Rect { x: x as int, y: y as int, width: width as int, height: height as int }),
        ),
        doc_width(*final(doc)) == doc_width(*old(doc)),
        doc_height(*final(doc)) == doc_height(*old(doc)),
{
    doc.append(
        svg::node::element::Rectangle::new()
            .set("fill", "#fff")
            .set("x", x)
            .set("y", y)
            .set("width", width)
            .set("height", height),
    );
}

/// Relies on `svg::node::element::Line` and `Node::append`: appends one
/// black line with exactly the given endpoints and stroke width.
#[verifier::external_body]
pub(crate) fn append_line(doc: &mut svg::Document, x1: i64, y1: i64, x2: i64, y2: i64, stroke_width: i64)
    ensures
        doc_shapes(*final(doc)) == doc_shapes(*old(doc)).push(
            (Shape::Line {
                x1: x1 as int,
                y1: y1 as int,
                x2: x2 as int,
                y2: y2 as int,
                stroke_width: stroke_width as int,
            }),
        ),
        doc_width(*final(doc)) == doc_width(*old(doc)),
        doc_height(*final(doc)) == doc_height(*old(doc)),
{
    doc.append(
        svg::node::element::Line::new()
            .set("stroke", "#000")
            .set("stroke-width", stroke_width)
            .set("x1", x1)
            .set("y1", y1)
            .set("x2", x2)
            .set("y2", y2),
    );
}

/// Relies on `text_svg`'s `Glpyh::path` and `Node::append`: appends the
/// glyph's outline path anchored at `(x, y)`.
#[verifier::external_body]
pub(crate) fn append_glyph(doc: &mut svg::Document, glyph: &GlyphOutline<'_>, x: i64, y: i64)
    ensures
        doc_shapes(*final(doc)) == doc_shapes(*old(doc)).push(
            (Shape::Glyph {
                ch: glyph.ch_spec(),
                size: glyph.size_spec() as int,
                x: x as int,
                y: y as int,
            }),
        ),
        doc_width(*final(doc)) == doc_width(*old(doc)),
        doc_height(*final(doc)) == doc_height(*old(doc)),
{
    doc.append(glyph.outline.path(x as _, y as _));
}

} // verus!
