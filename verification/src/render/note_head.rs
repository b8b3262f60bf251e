//! Note heads and their augmentation dots.

use vstd::prelude::*;

use crate::duration::{Duration, DurationKind};
use crate::glyph::{font_outline, glyph_new, GlyphOutline};
use crate::output::{append_glyph, doc_height, doc_shapes, doc_width, Shape};
use crate::render::{idx_ok, pos_ok, Renderer};

verus! {

/// Font size of a note-head or dot glyph, in quarter units:
/// seventy-five pixels of the classic page.
pub const NOTE_GLYPH_SIZE: i64 = 1200;

/// The note-head glyph for a duration kind: black, void, or whole
/// note head.
pub open spec fn duration_char(kind: DurationKind) -> char {
    match kind {
        DurationKind::Quarter => '\u{1d158}',
        DurationKind::Half => '\u{1d157}',
        DurationKind::Whole => '\u{1d15d}',
    }
}

/// The x-coordinate of a note head, in quarter units: the measure cursor
/// plus the head's own offset.
pub open spec fn head_x(note_x: int, offset: int) -> int {
    4 * note_x + 4 * offset
}

/// The y-coordinate of a note head at a diatonic index, in quarter
/// units: one note height per index step above the row top, with index
/// one sitting exactly on the top.
pub open spec fn head_y(top: int, note_ry: int, index: int) -> int {
    4 * top + 4 * (index - 1) * note_ry
}

/// The x-coordinate of an augmentation dot, in quarter units: one and a
/// half note widths plus a stroke width right of its note head.
pub open spec fn dot_x(note_x: int, offset: int, note_rx: int, stroke_width: int) -> int {
    head_x(note_x, offset) + 6 * note_rx + 4 * stroke_width
}

/// Index linearity: a note head's vertical offset from the row top is
/// the note height times one less than its index — zero at index one —
/// and it grows strictly with the index whenever the note height is
/// positive.
pub proof fn lemma_index_linearity(top: int, note_ry: int, i: int, j: int)
    requires
        0 < note_ry,
        i < j,
    ensures
        head_y(top, note_ry, 1) == 4 * top,
        head_y(top, note_ry, i) - 4 * top == 4 * (i - 1) * note_ry,
        head_y(top, note_ry, i) < head_y(top, note_ry, j),
{
    assert(4 * (i - 1) * note_ry < 4 * (j - 1) * note_ry) by (nonlinear_arith)
        requires
            0 < note_ry,
            i < j,
    ;
    assert(4 * (1 - 1) * note_ry == 0) by (nonlinear_arith);
}

/// Dot offset invariance: the augmentation dot sits a fixed distance
/// right of its note head — one and a half note widths plus a stroke
/// width — and that distance takes neither the head's index nor the
/// note's duration into account.
pub proof fn lemma_dot_offset_invariant(note_x: int, offset: int, note_rx: int, stroke_width: int)
    ensures
        dot_x(note_x, offset, note_rx, stroke_width) - head_x(note_x, offset) == 6 * note_rx + 4
            * stroke_width,
{
}

/// One note head: a diatonic staff index and a horizontal offset within
/// its measure.
#[derive(Clone, Copy, PartialEq, Eq, Structural, Debug)]
pub struct NoteHead {
    pub index: i64,
    pub x: i64,
}

impl NoteHead {
    /// A note head at the given index and offset.
    pub fn new(index: i64, x: i64) -> (r: Self)
        ensures
            r.index == index,
            r.x == x,
    {
        Self { index, x }
    }

    /// Draws the note head for a duration: picks the head glyph by the
    /// duration's kind, adds an augmentation dot when it is dotted, and
    /// places both by the index formulas. Returns `false`, drawing
    /// nothing, when the font gives no outline for a needed glyph.
    pub fn draw(
        &self,
        note_x: i64,
        top: i64,
        duration: Duration,
        renderer: &Renderer,
        node: &mut svg::Document,
    ) -> (ok: bool)
        requires
            renderer.wf(),
            pos_ok(note_x as int),
            pos_ok(top as int),
            pos_ok(self.x as int),
            idx_ok(self.index as int),
        ensures
            ok == (font_outline(renderer.font, duration_char(duration.kind)) && (
            duration.is_dotted ==> font_outline(renderer.font, '.'))),
            ok ==> doc_shapes(*final(node)) == {
                let head = (Shape::Glyph {
                    ch: duration_char(duration.kind),
                    size: NOTE_GLYPH_SIZE as int,
                    x: head_x(note_x as int, self.x as int),
                    y: head_y(top as int, renderer.note_ry as int, self.index as int),
                });
                let dot = (Shape::Glyph {
                    ch: '.',
                    size: NOTE_GLYPH_SIZE as int,
                    x: dot_x(
                        note_x as int,
                        self.x as int,
                        renderer.note_rx as int,
                        renderer.stroke_width as int,
                    ),
                    y: head_y(top as int, renderer.note_ry as int, self.index as int),
                });
                if duration.is_dotted {
                    doc_shapes(*old(node)).push(dot).push(head)
                } else {
                    doc_shapes(*old(node)).push(head)
                }
            },
            !ok ==> doc_shapes(*final(node)) == doc_shapes(*old(node)),
            doc_width(*final(node)) == doc_width(*old(node)),
            doc_height(*final(node)) == doc_height(*old(node)),
    {
        let c: char = match duration.kind {
            DurationKind::Quarter => '\u{1d158}',
            DurationKind::Half => '\u{1d157}',
            DurationKind::Whole => '\u{1d15d}',
        };
        let glyph = match glyph_new(&renderer.font, c, NOTE_GLYPH_SIZE) {
            Some(glyph) => glyph,
            None => {
                return false;
            },
        };
        if duration.is_dotted {
            let dot_glyph = match glyph_new(&renderer.font, '.', NOTE_GLYPH_SIZE) {
                Some(glyph) => glyph,
                None => {
                    return false;
                },
            };
            self.draw_with_glyph(note_x, top, &glyph, Some(&dot_glyph), renderer, node);
        } else {
            self.draw_with_glyph(note_x, top, &glyph, None, renderer, node);
        }
        true
    }

    /// Draws the note head from pre-built outlines, so one outline can
    /// serve every same-duration head of a chord: appends the dot glyph,
    /// if one is given, then the head glyph, both at the vertical offset
    /// of the head's index.
    pub fn draw_with_glyph(
        &self,
        note_x: i64,
        top: i64,
        glyph: &GlyphOutline<'_>,
        dot_glyph: Option<&GlyphOutline<'_>>,
        renderer: &Renderer,
        node: &mut svg::Document,
    )
        requires
            renderer.wf(),
            pos_ok(note_x as int),
            pos_ok(top as int),
            pos_ok(self.x as int),
            idx_ok(self.index as int),
        ensures
            doc_shapes(*final(node)) == {
                let head = (Shape::Glyph {
                    ch: glyph.ch_spec(),
                    size: glyph.size_spec() as int,
                    x: head_x(note_x as int, self.x as int),
                    y: head_y(top as int, renderer.note_ry as int, self.index as int),
                });
                match dot_glyph {
                    Some(dot) => doc_shapes(*old(node)).push(
                        (Shape::Glyph {
                            ch: dot.ch_spec(),
                            size: dot.size_spec() as int,
                            x: dot_x(
                                note_x as int,
                                self.x as int,
                                renderer.note_rx as int,
                                renderer.stroke_width as int,
                            ),
                            y: head_y(top as int, renderer.note_ry as int, self.index as int),
                        }),
                    ).push(head),
                    None => doc_shapes(*old(node)).push(head),
                }
            },
            doc_width(*final(node)) == doc_width(*old(node)),
            doc_height(*final(node)) == doc_height(*old(node)),
    {
        proof {
            crate::render::lemma_idx_len_mul_bound(
                4 * (self.index as int - 1),
                renderer.note_ry as int,
            );
        }
        let y = 4 * top + 4 * (self.index - 1) * renderer.note_ry;
        if let Some(dot) = dot_glyph {
            append_glyph(
                node,
                dot,
                4 * note_x + 4 * self.x + 6 * renderer.note_rx + 4 * renderer.stroke_width,
                y,
            );
        }
        append_glyph(node, glyph, 4 * note_x + 4 * self.x, y);
    }
}

} // verus!
