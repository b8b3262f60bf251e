//! Chord stems: one vertical line per chord.

use vstd::prelude::*;

use crate::output::{doc_shapes, doc_height, doc_width, Shape};
use crate::render::{idx_ok, pos_ok, Renderer};

verus! {

/// The x-coordinate of a stem-down line, in quarter units: half a stroke
/// width right of the cursor.
pub open spec fn stem_down_x(x: int, stroke_width: int) -> int {
    4 * x + 2 * stroke_width
}

/// The top of a stem-down line, in quarter units: half a note height
/// above the baseline, plus three quarters of a note height past the low
/// index.
pub open spec fn stem_down_y1(y: int, note_ry: int, low: int) -> int {
    4 * y - 2 * note_ry + (4 * low + 3) * note_ry
}

/// The bottom of a stem-down line, in quarter units: a fixed six note
/// heights past the high index, so the stem always clears the chord.
pub open spec fn stem_down_y2(y: int, note_ry: int, high: int) -> int {
    4 * y + (4 * high + 24) * note_ry
}

/// The x-coordinate of a stem-up line, in quarter units: one stroke
/// width plus one note width right of the cursor.
pub open spec fn stem_up_x(x: int, stroke_width: int, note_rx: int) -> int {
    4 * x + 4 * stroke_width + 4 * note_rx
}

/// The top of a stem-up line, in quarter units: a fixed six note heights
/// above the low index.
pub open spec fn stem_up_y1(y: int, note_ry: int, low: int) -> int {
    4 * y + (4 * low - 24) * note_ry
}

/// The bottom of a stem-up line, in quarter units: half a note height
/// below the baseline, plus half a note height short of the high index.
pub open spec fn stem_up_y2(y: int, note_ry: int, high: int) -> int {
    4 * y + 2 * note_ry + (4 * high - 2) * note_ry
}

/// The one line a stem draws at `(x, y)` under a configuration, given
/// its orientation.
pub open spec fn stem_line(
    stem: Stem,
    x: int,
    y: int,
    is_upside_down: bool,
    renderer: Renderer,
) -> Shape {
    if is_upside_down {
        Shape::Line {
            x1: stem_down_x(x, renderer.stroke_width as int),
            y1: stem_down_y1(y, renderer.note_ry as int, stem.low as int),
            x2: stem_down_x(x, renderer.stroke_width as int),
            y2: stem_down_y2(y, renderer.note_ry as int, stem.high as int),
            stroke_width: 4 * renderer.stroke_width as int,
        }
    } else {
        Shape::Line {
            x1: stem_up_x(x, renderer.stroke_width as int, renderer.note_rx as int),
            y1: stem_up_y1(y, renderer.note_ry as int, stem.low as int),
            x2: stem_up_x(x, renderer.stroke_width as int, renderer.note_rx as int),
            y2: stem_up_y2(y, renderer.note_ry as int, stem.high as int),
            stroke_width: 4 * renderer.stroke_width as int,
        }
    }
}

/// The stem of one chord: the pair of diatonic indices spanning its
/// extremal note heads. The direction is chosen by the caller at draw
/// time.
#[derive(Clone, Copy, PartialEq, Eq, Structural, Debug)]
pub struct Stem {
    pub low: i64,
    pub high: i64,
}

impl Stem {
    /// A stem spanning the given extremal indices.
    pub fn new(low: i64, high: i64) -> (r: Self)
        ensures
            r.low == low,
            r.high == high,
    {
        Self { low, high }
    }

    /// Draws the stem: appends exactly one vertical black line whose
    /// endpoints follow the closed-form stem formulas for the chosen
    /// orientation (`is_upside_down` meaning stem-down).
    pub fn svg(
        &self,
        x: i64,
        y: i64,
        is_upside_down: bool,
        renderer: &Renderer,
        node: &mut svg::Document,
    )
        requires
            renderer.wf(),
            pos_ok(x as int),
            pos_ok(y as int),
            idx_ok(self.low as int),
            idx_ok(self.high as int),
        ensures
            doc_shapes(*final(node)) == doc_shapes(*old(node)).push(
                stem_line(*self, x as int, y as int, is_upside_down, *renderer),
            ),
            doc_width(*final(node)) == doc_width(*old(node)),
            doc_height(*final(node)) == doc_height(*old(node)),
    {
        proof {
            crate::render::lemma_idx_len_mul_bound(
                4 * self.low as int + 3,
                renderer.note_ry as int,
            );
            crate::render::lemma_idx_len_mul_bound(
                4 * self.high as int + 24,
                renderer.note_ry as int,
            );
            crate::render::lemma_idx_len_mul_bound(
                4 * self.low as int - 24,
                renderer.note_ry as int,
            );
            crate::render::lemma_idx_len_mul_bound(
                4 * self.high as int - 2,
                renderer.note_ry as int,
            );
        }
        if is_upside_down {
            let line_x = 4 * x + 2 * renderer.stroke_width;
            renderer.draw_line(
                node,
                line_x,
                4 * y - 2 * renderer.note_ry + (4 * self.low + 3) * renderer.note_ry,
                line_x,
                4 * y + (4 * self.high + 24) * renderer.note_ry,
            );
        } else {
            let line_x = 4 * x + 4 * renderer.stroke_width + 4 * renderer.note_rx;
            renderer.draw_line(
                node,
                line_x,
                4 * y + (4 * self.low - 24) * renderer.note_ry,
                line_x,
                4 * y + 2 * renderer.note_ry + (4 * self.high - 2) * renderer.note_ry,
            );
        }
    }
}

} // verus!
