//! Layout configuration, measure packing and page rendering.

use vstd::prelude::*;

use crate::glyph::{font_from_vec, font_parses};
use crate::output::{append_rect, new_document, doc_shapes, doc_width, doc_height, Shape};

pub mod clef;
pub mod note_head;
pub mod stem;

pub use clef::Clef;
pub use note_head::NoteHead;
pub use stem::Stem;

verus! {

/// Largest value allowed for a configured length or a measure width, in
/// base units.
pub const LEN_MAX: i64 = 16777216;

/// Largest magnitude allowed for a cursor position handed to a drawing
/// routine, in base units.
pub const POS_MAX: i64 = 1099511627776;

/// Largest magnitude allowed for a diatonic staff index.
pub const IDX_MAX: i64 = 16777216;

/// Vertical distance between row baselines, in base units: one hundred
/// pixels of the classic page. Rows are not sized to their content.
pub const ROW_HEIGHT: i64 = 400;

/// Largest number of rows a staff may hold when rendered, so that row
/// baselines stay within `i64`.
pub const MAX_ROWS: usize = 1000000000;

/// A configured length: non-negative and small enough that the geometry
/// formulas stay within `i64`.
pub open spec fn len_ok(v: int) -> bool {
    0 <= v <= LEN_MAX as int
}

/// A cursor position a drawing routine accepts.
pub open spec fn pos_ok(v: int) -> bool {
    -(POS_MAX as int) <= v <= POS_MAX as int
}

/// A diatonic staff index a drawing routine accepts.
pub open spec fn idx_ok(v: int) -> bool {
    -(IDX_MAX as int) <= v <= IDX_MAX as int
}

/// The immutable layout configuration: spacing and size constants, in
/// base units, plus the loaded font resource. Shared by reference; never
/// mutated during layout.
pub struct Renderer {
    pub document_padding: i64,
    pub note_rx: i64,
    pub note_ry: i64,
    pub padding: i64,
    pub stroke_width: i64,
    pub accidental_size: i64,
    pub width: i64,
    pub height: i64,
    pub font: rusttype::Font<'static>,
    pub min_spacing: i64,
}

impl Renderer {
    /// Every configured length is in range, so layout arithmetic cannot
    /// overflow.
    pub open spec fn wf(&self) -> bool {
        &&& len_ok(self.document_padding as int)
        &&& len_ok(self.note_rx as int)
        &&& len_ok(self.note_ry as int)
        &&& len_ok(self.padding as int)
        &&& len_ok(self.stroke_width as int)
        &&& len_ok(self.accidental_size as int)
        &&& len_ok(self.width as int)
        &&& len_ok(self.height as int)
        &&& len_ok(self.min_spacing as int)
    }

    /// The default configuration holding the given font: the classic
    /// five-hundred-pixel page, at four base units to the pixel.
    pub fn new(font: rusttype::Font<'static>) -> (r: Renderer)
        ensures
            r.wf(),
            r.document_padding == 80,
            r.note_rx == 40,
            r.note_ry == 24,
            r.padding == 40,
            r.stroke_width == 6,
            r.accidental_size == 320,
            r.width == 2000,
            r.height == 800,
            r.min_spacing == 72,
    {
        Renderer {
            document_padding: 80,
            note_rx: 40,
            note_ry: 24,
            padding: 40,
            stroke_width: 6,
            accidental_size: 320,
            width: 2000,
            height: 800,
            font,
            min_spacing: 72,
        }
    }

    /// Parses font data and builds the default configuration around it;
    /// `None` exactly when the data is not a usable font. Layout cannot
    /// proceed without the font resource.
    pub fn from_font_data(data: Vec<u8>) -> (r: Option<Renderer>)
        ensures
            r is Some <==> font_parses(data@),
            r matches Some(c) ==> c.wf() && c.document_padding == 80 && c.note_rx == 40
                && c.note_ry == 24 && c.padding == 40 && c.stroke_width == 6
                && c.accidental_size == 320 && c.width == 2000 && c.height == 800
                && c.min_spacing == 72,
    {
        match font_from_vec(data) {
            Some(font) => Some(Renderer::new(font)),
            None => None,
        }
    }

    /// The vertical baseline of row `k`, counted from zero: rows advance
    /// by the fixed row height, whatever they hold.
    pub fn row_baseline(k: usize) -> (y: i64)
        requires
            k <= MAX_ROWS,
        ensures
            y as int == ROW_HEIGHT as int * k as int,
    {
        ROW_HEIGHT * (k as i64)
    }

    /// The slack a row of total measure width `measures_width` and
    /// `count` measures hands to each of its measures: the exact rational
    /// `(page width - measures width - 2 * document padding) / count`,
    /// kept as numerator and denominator.
    pub fn row_slack(&self, measures_width: i64, count: usize) -> (s: Slack)
        requires
            self.wf(),
            0 <= measures_width <= 4 * LEN_MAX as int,
            1 <= count,
        ensures
            s.num as int == self.width as int - measures_width as int
                - 2 * self.document_padding as int,
            s.count == count,
    {
        Slack { num: self.width - measures_width - 2 * self.document_padding, count }
    }

    /// Appends one black line with the given endpoints (quarter units);
    /// its stroke width is the configured stroke width, scaled to quarter
    /// units.
    pub(crate) fn draw_line(&self, node: &mut svg::Document, x1: i64, y1: i64, x2: i64, y2: i64)
        requires
            self.wf(),
        ensures
            doc_shapes(*final(node)) == doc_shapes(*old(node)).push(
                (Shape::Line {
                    x1: x1 as int,
                    y1: y1 as int,
                    x2: x2 as int,
                    y2: y2 as int,
                    stroke_width: 4 * self.stroke_width as int,
                }),
            ),
            doc_width(*final(node)) == doc_width(*old(node)),
            doc_height(*final(node)) == doc_height(*old(node)),
    {
        crate::output::append_line(node, x1, y1, x2, y2, 4 * self.stroke_width);
    }

    /// Renders the staff into a fresh document: a white background
    /// rectangle over the whole page, then each row of measures, top to
    /// bottom, each measure drawn at the cursor its predecessor returned,
    /// with its row's slack. A staff with no rows yields a document
    /// holding the background rectangle alone.
    #[verifier::loop_isolation(false)]
    pub fn render<M: Measure>(&self, staff: &Staff<M>) -> (doc: svg::Document)
        requires
            self.wf(),
            staff.wf(),
            staff.rows_seq().len() <= MAX_ROWS as int,
        ensures
            doc_width(doc) == 4 * self.width as int,
            doc_height(doc) == 4 * self.height as int,
            doc_shapes(doc).len() >= 1,
            doc_shapes(doc)[0] == (Shape::Rect {
                x: 0,
                y: 0,
                width: 4 * self.width as int,
                height: 4 * self.height as int,
            }),
            staff.rows_seq().len() == 0 ==> doc_shapes(doc) == seq![
                (Shape::Rect {
                    x: 0,
                    y: 0,
                    width: 4 * self.width as int,
                    height: 4 * self.height as int,
                }),
            ],
            doc_shapes(doc) == seq![
                (Shape::Rect {
                    x: 0,
                    y: 0,
                    width: 4 * self.width as int,
                    height: 4 * self.height as int,
                }),
            ] + staff_shapes_from(staff.measures_partition(), 0, self),
    {
        let ghost bg = (Shape::Rect {
            x: 0,
            y: 0,
            width: 4 * self.width as int,
            height: 4 * self.height as int,
        });
        let ghost part = staff.measures_partition();
        let mut document = new_document(4 * self.width, 4 * self.height);
        append_rect(&mut document, 0, 0, 4 * self.width, 4 * self.height);
        proof {
            assert(doc_shapes(document) =~= seq![bg]);
        }
        let mut k: usize = 0;
        while k < staff.rows.len()
            invariant
                k <= staff.rows@.len(),
                doc_width(document) == 4 * self.width as int,
                doc_height(document) == 4 * self.height as int,
                doc_shapes(document).len() >= 1,
                doc_shapes(document)[0] == bg,
                doc_shapes(document) + staff_shapes_from(part, k as int, self) == seq![bg]
                    + staff_shapes_from(part, 0, self),
            decreases staff.rows@.len() - k,
        {
            let ghost widths = staff.rows@[k as int].widths();
            let ghost row_measures = part[k as int];
            proof {
                assert(staff.rows@[k as int].wf());
                assert(row_measures == staff.rows@[k as int].measures@);
            }
            let y = Renderer::row_baseline(k);
            let mut x: i64 = self.stroke_width + self.document_padding;
            proof {
                assert(y == (ROW_HEIGHT as int * k as int) as i64);
                assert(x == row_start_x(self));
            }
            let count = staff.rows[k].measures.len();
            let mut measures_width: i64 = 0;
            let mut j: usize = 0;
            while j < count
                invariant
                    j <= count,
                    measures_width as int == sum(widths.take(j as int)),
                    0 <= measures_width as int,
                decreases count - j,
            {
                proof {
                    assert(widths.take(j as int + 1).drop_last() =~= widths.take(j as int));
                    lemma_sum_take_le(widths, j as int + 1);
                    assert(sum(widths.take(j as int + 1)) == sum(widths.take(j as int))
                        + widths[j as int]);
                    assert(widths[j as int] == staff.rows@[k as int].measures@[j as int].width_spec());
                }
                measures_width = measures_width + staff.rows[k].measures[j].width();
                j = j + 1;
            }
            proof {
                assert(widths.take(count as int) =~= widths);
            }
            let extra = self.row_slack(measures_width, count);
            proof {
                assert(widths == widths_of(row_measures));
                assert(extra == row_slack_of(row_measures, self));
            }
            let ghost row_doc0 = doc_shapes(document);
            let ghost x0 = x;
            let mut index: usize = 0;
            while index < count
                invariant
                    index <= count,
                    doc_width(document) == 4 * self.width as int,
                    doc_height(document) == 4 * self.height as int,
                    doc_shapes(document).len() >= 1,
                    doc_shapes(document)[0] == bg,
                    row_doc0 + row_shapes_from(row_measures, 0, x0, y, extra, self) == doc_shapes(
                        document,
                    ) + row_shapes_from(row_measures, index as int, x, y, extra, self),
                decreases count - index,
            {
                let ghost before = doc_shapes(document);
                let ghost x_before = x;
                x = staff.rows[k].measures[index].svg(x, y, extra, index, self, &mut document);
                proof {
                    assert(doc_shapes(document)[0] == before[0]);
                    assert(staff.rows@[k as int].measures@[index as int] == row_measures[index as int]);
                    assert(row_shapes_from(row_measures, index as int, x_before, y, extra, self)
                        == row_measures[index as int].svg_shapes(x_before, y, extra, index, self)
                        + row_shapes_from(row_measures, index as int + 1, x, y, extra, self));
                    assert(row_doc0 + row_shapes_from(row_measures, 0, x0, y, extra, self)
                        =~= doc_shapes(document) + row_shapes_from(
                        row_measures,
                        index as int + 1,
                        x,
                        y,
                        extra,
                        self,
                    ));
                }
                index = index + 1;
            }
            proof {
                assert(row_shapes_from(row_measures, count as int, x, y, extra, self)
                    =~= Seq::<Shape>::empty());
                assert(doc_shapes(document) =~= row_doc0 + row_shapes_from(
                    row_measures,
                    0,
                    x0,
                    y,
                    extra,
                    self,
                ));
                assert(staff_shapes_from(part, k as int, self) == row_shapes_from(
                    part[k as int],
                    0,
                    row_start_x(self),
                    (ROW_HEIGHT as int * k as int) as i64,
                    row_slack_of(part[k as int], self),
                    self,
                ) + staff_shapes_from(part, k as int + 1, self));
                assert(doc_shapes(document) + staff_shapes_from(part, k as int + 1, self)
                    =~= seq![bg] + staff_shapes_from(part, 0, self));
            }
            k = k + 1;
        }
        proof {
            assert(staff_shapes_from(part, staff.rows@.len() as int, self)
                =~= Seq::<Shape>::empty());
            assert(doc_shapes(document) =~= seq![bg] + staff_shapes_from(part, 0, self));
            if staff.rows@.len() == 0 {
                assert(doc_shapes(document) =~= seq![bg]);
            }
        }
        document
    }
}

/// The leftover width of a row, shared evenly: each measure receives
/// `num / count` extra horizontal space, an exact rational. `num` is
/// negative when a row overflows the padded page.
#[derive(Clone, Copy, PartialEq, Eq, Structural, Debug)]
pub struct Slack {
    pub num: i64,
    pub count: usize,
}

/// The layout contract of one measure (one bar of music). The engraving
/// core does not define a measure's internals: an implementor exposes a
/// precomputed width and renders itself into the document.
pub trait Measure: Sized {
    /// The width this measure reserves within a row, in base units: the
    /// meaning `width` is held to. The default leaves it unconstrained,
    /// so implementors outside the verifier need not name it.
    open spec fn width_spec(&self) -> int {
        vstd::pervasive::arbitrary()
    }

    /// The shapes this measure appends when rendered with these
    /// arguments: the meaning `svg` is held to. The default leaves it
    /// unconstrained, so implementors outside the verifier need not
    /// name it.
    open spec fn svg_shapes(
        &self,
        x: i64,
        y: i64,
        extra: Slack,
        index: usize,
        renderer: &Renderer,
    ) -> Seq<Shape> {
        vstd::pervasive::arbitrary()
    }

    /// The cursor this measure returns when rendered with these
    /// arguments. Unconstrained by default, like `svg_shapes`.
    open spec fn svg_next(
        &self,
        x: i64,
        y: i64,
        extra: Slack,
        index: usize,
        renderer: &Renderer,
    ) -> i64 {
        vstd::pervasive::arbitrary()
    }

    /// The precomputed width: in range, and equal to the spec width.
    fn width(&self) -> (w: i64)
        ensures
            w as int == self.width_spec(),
            0 <= w as int <= LEN_MAX as int,
    ;

    /// Renders the measure: `x` is the horizontal cursor it starts at,
    /// `y` its row's baseline, `extra` its row's slack and `index` its
    /// position within the row. It appends exactly its own shapes for
    /// these arguments, leaves the document's size alone, and returns
    /// the cursor for the next measure.
    fn svg(
        &self,
        x: i64,
        y: i64,
        extra: Slack,
        index: usize,
        renderer: &Renderer,
        node: &mut svg::Document,
    ) -> (next_x: i64)
        ensures
            doc_shapes(*final(node)) == doc_shapes(*old(node)) + self.svg_shapes(
                x,
                y,
                extra,
                index,
                renderer,
            ),
            next_x == self.svg_next(x, y, extra, index, renderer),
            doc_width(*final(node)) == doc_width(*old(node)),
            doc_height(*final(node)) == doc_height(*old(node)),
    ;
}

/// The widths of a run of measures, left to right.
pub open spec fn widths_of<M: Measure>(measures: Seq<M>) -> Seq<int> {
    measures.map(|i: int, m: M| m.width_spec())
}

/// The cursor every row starts at: just right of the stroke and the
/// document padding.
pub open spec fn row_start_x(renderer: &Renderer) -> i64 {
    (renderer.stroke_width + renderer.document_padding) as i64
}

/// The slack a row's measures share: the page width less their total
/// width and both document paddings, over the measure count.
pub open spec fn row_slack_of<M: Measure>(measures: Seq<M>, renderer: &Renderer) -> Slack {
    Slack {
        num: (renderer.width - sum(widths_of(measures)) - 2 * renderer.document_padding) as i64,
        count: measures.len() as usize,
    }
}

/// The shapes that measures `i` onward of one row append, each drawn
/// with its index, its row's baseline and slack, and the cursor its
/// predecessor returned, starting from cursor `x`.
pub open spec fn row_shapes_from<M: Measure>(
    measures: Seq<M>,
    i: int,
    x: i64,
    y: i64,
    extra: Slack,
    renderer: &Renderer,
) -> Seq<Shape>
    decreases measures.len() - i,
{
    if 0 <= i < measures.len() {
        measures[i].svg_shapes(x, y, extra, i as usize, renderer) + row_shapes_from(
            measures,
            i + 1,
            measures[i].svg_next(x, y, extra, i as usize, renderer),
            y,
            extra,
            renderer,
        )
    } else {
        Seq::empty()
    }
}

/// The shapes that rows `k` onward append: each row's measures, left to
/// right, at the row's fixed baseline, from the fixed start cursor,
/// with the row's own slack.
pub open spec fn staff_shapes_from<M: Measure>(
    rows: Seq<Seq<M>>,
    k: int,
    renderer: &Renderer,
) -> Seq<Shape>
    decreases rows.len() - k,
{
    if 0 <= k < rows.len() {
        row_shapes_from(
            rows[k],
            0,
            row_start_x(renderer),
            (ROW_HEIGHT as int * k) as i64,
            row_slack_of(rows[k], renderer),
            renderer,
        ) + staff_shapes_from(rows, k + 1, renderer)
    } else {
        Seq::empty()
    }
}

/// Something drawable at a position, under a configuration.
pub trait Draw {
    /// The shapes drawing contributes, in order.
    spec fn draw_shapes(&self, x: i64, y: i64, renderer: &Renderer) -> Seq<Shape>;

    /// What drawing needs of its inputs.
    spec fn draw_req(&self, x: i64, y: i64, renderer: &Renderer) -> bool;

    /// Draws at `(x, y)` (base units), appending exactly `draw_shapes`.
    fn draw(&self, x: i64, y: i64, renderer: &Renderer, node: &mut svg::Document)
        requires
            self.draw_req(x, y, renderer),
        ensures
            doc_shapes(*final(node)) == doc_shapes(*old(node)) + self.draw_shapes(x, y, renderer),
            doc_width(*final(node)) == doc_width(*old(node)),
            doc_height(*final(node)) == doc_height(*old(node)),
    ;
}

/// A product of an index-sized factor (up to five times the index
/// bound) and a configured length stays far inside `i64`.
pub proof fn lemma_idx_len_mul_bound(a: int, b: int)
    requires
        -83886080 <= a <= 83886080,
        0 <= b <= 16777216,
    ensures
        -1407374883553280 <= a * b <= 1407374883553280,
{
    assert(-1407374883553280 <= a * b <= 1407374883553280) by (nonlinear_arith)
        requires
            -83886080 <= a <= 83886080,
            0 <= b <= 16777216,
    ;
}

/// The sum of a sequence of widths.
pub open spec fn sum(s: Seq<int>) -> int
    decreases s.len(),
{
    if s.len() == 0 {
        0
    } else {
        sum(s.drop_last()) + s.last()
    }
}

/// Summing after appending adds the appended width.
pub proof fn lemma_sum_push(s: Seq<int>, v: int)
    ensures
        sum(s.push(v)) == sum(s) + v,
{
    assert(s.push(v).drop_last() =~= s);
}

/// A sequence of in-range widths sums to at most one maximal width per
/// element, and never below zero.
pub proof fn lemma_sum_bound(s: Seq<int>)
    requires
        forall|i: int| 0 <= i < s.len() ==> 0 <= #[trigger] s[i] <= LEN_MAX as int,
    ensures
        0 <= sum(s) <= s.len() * LEN_MAX as int,
    decreases s.len(),
{
    if s.len() > 0 {
        lemma_sum_bound(s.drop_last());
    }
}

/// Non-negative widths sum to something non-negative.
pub proof fn lemma_sum_nonneg(s: Seq<int>)
    requires
        forall|i: int| 0 <= i < s.len() ==> 0 <= #[trigger] s[i],
    ensures
        0 <= sum(s),
    decreases s.len(),
{
    if s.len() > 0 {
        assert(forall|i: int| 0 <= i < s.drop_last().len() ==> 0 <= #[trigger] s.drop_last()[i]);
        lemma_sum_nonneg(s.drop_last());
    }
}

/// For non-negative widths, a prefix never sums to more than the whole.
pub proof fn lemma_sum_take_le(s: Seq<int>, n: int)
    requires
        0 <= n <= s.len(),
        forall|i: int| 0 <= i < s.len() ==> 0 <= #[trigger] s[i],
    ensures
        0 <= sum(s.take(n)) <= sum(s),
    decreases s.len() - n,
{
    assert(forall|i: int| 0 <= i < s.take(n).len() ==> 0 <= #[trigger] s.take(n)[i]);
    lemma_sum_nonneg(s.take(n));
    if n == s.len() {
        assert(s.take(n) =~= s);
    } else {
        lemma_sum_take_le(s, n + 1);
        assert(s.take(n + 1).drop_last() =~= s.take(n));
        assert(sum(s.take(n + 1)) == sum(s.take(n)) + s[n]);
    }
}

/// The greedy fit test: there is a current (last) row, and its width
/// plus the new measure's stays strictly under the page width.
pub open spec fn step_fits(rows: Seq<Seq<int>>, m: int, page_width: int) -> bool {
    rows.len() > 0 && sum(rows.last()) + m < page_width
}

/// One step of the greedy packing rule on a partition of widths: a
/// measure joins the last row when it fits there; otherwise it opens a
/// new row.
pub open spec fn pack_step(rows: Seq<Seq<int>>, m: int, page_width: int) -> Seq<Seq<int>> {
    if step_fits(rows, m, page_width) {
        rows.update(rows.len() - 1, rows.last().push(m))
    } else {
        rows.push(seq![m])
    }
}

/// The partition the greedy rule builds from a whole sequence of widths.
pub open spec fn pack_all(widths: Seq<int>, page_width: int) -> Seq<Seq<int>>
    decreases widths.len(),
{
    if widths.len() == 0 {
        Seq::empty()
    } else {
        pack_step(pack_all(widths.drop_last(), page_width), widths.last(), page_width)
    }
}

/// Pushing one more width takes the greedy partition exactly one
/// packing step further — the step `Staff::push` promises.
pub proof fn lemma_pack_all_push(widths: Seq<int>, m: int, page_width: int)
    ensures
        pack_all(widths.push(m), page_width) == pack_step(
            pack_all(widths, page_width),
            m,
            page_width,
        ),
{
    assert(widths.push(m).drop_last() =~= widths);
}

/// A partition respects the page width: every row is non-empty, and a
/// row of two or more measures sums to strictly less than the page
/// width. (A row holding a single over-wide measure is the one allowed
/// overflow.)
pub open spec fn rows_fit(rows: Seq<Seq<int>>, page_width: int) -> bool {
    forall|i: int|
        0 <= i < rows.len() ==> #[trigger] rows[i].len() >= 1 && (rows[i].len() > 1 ==> sum(
            rows[i],
        ) < page_width)
}

/// One packing step keeps a partition fitting: a row is only ever
/// extended under the strict fit test, and a new row starts with one
/// measure.
pub proof fn lemma_pack_step_fit(rows: Seq<Seq<int>>, m: int, page_width: int)
    requires
        rows_fit(rows, page_width),
    ensures
        rows_fit(pack_step(rows, m, page_width), page_width),
{
    if rows.len() > 0 && sum(rows.last()) + m < page_width {
        lemma_sum_push(rows.last(), m);
    }
}

/// Packing monotonicity: however the widths run, every row of the greedy
/// partition fits strictly within the page width, except that a single
/// measure too wide for the page stands alone in an overflowing row.
pub proof fn lemma_packing_monotonic(widths: Seq<int>, page_width: int)
    ensures
        rows_fit(pack_all(widths, page_width), page_width),
    decreases widths.len(),
{
    if widths.len() > 0 {
        lemma_packing_monotonic(widths.drop_last(), page_width);
        lemma_pack_step_fit(pack_all(widths.drop_last(), page_width), widths.last(), page_width);
    }
}

/// Packing determinism: the partition is a function of the width
/// sequence and the page width alone — two equal pushes from equal
/// staffs give equal partitions (`Staff::push` promises exactly the
/// `pack_step` of the old partition).
pub proof fn lemma_packing_deterministic(widths1: Seq<int>, widths2: Seq<int>, page_width: int)
    requires
        widths1 == widths2,
    ensures
        pack_all(widths1, page_width) == pack_all(widths2, page_width),
{
}

/// Slack conservation: a row of total width `total` with `count`
/// measures gets per-measure slack `(page_width - total - 2 * pad) /
/// count`; multiplied through by the denominator `count`, total plus
/// slack fills the page between the padded margins exactly.
pub proof fn lemma_slack_conservation(total: int, count: int, page_width: int, pad: int)
    requires
        count >= 1,
    ensures
        count * total + count * (page_width - total - 2 * pad) == count * (page_width - 2 * pad),
{
    assert(count * total + count * (page_width - total - 2 * pad) == count * (page_width - 2
        * pad)) by (nonlinear_arith);
}

/// A left-to-right run of measures on one staff line, with the running
/// sum of their widths.
pub struct Row<M: Measure> {
    pub(crate) measures: Vec<M>,
    pub(crate) width: i64,
}

impl<M: Measure> Row<M> {
    /// The widths of this row's measures, left to right.
    pub closed spec fn widths(&self) -> Seq<int> {
        widths_of(self.measures@)
    }

    /// A row is never empty, holds only in-range widths, and its running
    /// width is exactly the sum of its measures' widths. The sum stays
    /// small: a row is only ever grown under the packing fit test, so it
    /// never exceeds a page width plus one measure width.
    pub closed spec fn wf(&self) -> bool {
        &&& self.measures@.len() >= 1
        &&& forall|i: int|
            0 <= i < self.widths().len() ==> 0 <= #[trigger] self.widths()[i] <= LEN_MAX as int
        &&& self.width as int == sum(self.widths())
        &&& sum(self.widths()) <= 2 * LEN_MAX as int
    }

}

/// The full page of music: rows of measures, grown by pushing measures
/// one at a time.
pub struct Staff<M: Measure> {
    pub(crate) rows: Vec<Row<M>>,
}

impl<M: Measure> Default for Staff<M> {
    /// An empty staff: no rows at all.
    fn default() -> (r: Self)
        ensures
            r.rows_seq().len() == 0,
            r.wf(),
    {
        Staff { rows: Vec::new() }
    }
}

impl<M: Measure> Staff<M> {
    /// The staff's rows.
    pub closed spec fn rows_seq(&self) -> Seq<Row<M>> {
        self.rows@
    }

    /// The partition of measure widths across the rows.
    pub closed spec fn partition(&self) -> Seq<Seq<int>> {
        self.rows@.map(|i: int, r: Row<M>| r.widths())
    }

    /// The partition of the measures themselves across the rows, in
    /// insertion order: insertion order is the visual left-to-right
    /// order, and rows, once closed, are never revisited.
    pub closed spec fn measures_partition(&self) -> Seq<Seq<M>> {
        self.rows@.map(|i: int, r: Row<M>| r.measures@)
    }

    /// Every row of the staff is well-formed.
    pub closed spec fn wf(&self) -> bool {
        forall|i: int| 0 <= i < self.rows@.len() ==> (#[trigger] self.rows@[i]).wf()
    }

    /// How many rows the staff holds.
    pub fn row_count(&self) -> (n: usize)
        ensures
            n == self.rows_seq().len(),
    {
        self.rows.len()
    }

    /// The running width of row `k`: the sum of its measures' widths.
    pub fn row_width(&self, k: usize) -> (w: i64)
        requires
            k < self.rows_seq().len(),
        ensures
            self.wf() ==> w as int == sum(self.partition()[k as int]),
    {
        self.rows[k].width
    }

    /// How many measures row `k` holds.
    pub fn row_len(&self, k: usize) -> (n: usize)
        requires
            k < self.rows_seq().len(),
        ensures
            n == self.partition()[k as int].len(),
    {
        self.rows[k].measures.len()
    }

    /// Appends a measure, deciding its placement by single-pass greedy
    /// wrap: it joins the current (last) row when that row's width plus
    /// the measure's stays strictly under the page width, and otherwise
    /// opens a new row of its own. The operation cannot fail; an
    /// over-wide measure is placed alone in an overflowing row.
    ///
    /// The fit test deliberately compares against the raw page width,
    /// not the page width less padding and stroke, although rendering
    /// starts the cursor past both: a row judged to fit can still run
    /// slightly past the right margin. That is a known quirk of the
    /// layout, kept as it is.
    pub fn push(&mut self, renderer: &Renderer, measure: M)
        requires
            old(self).wf(),
            renderer.wf(),
        ensures
            final(self).wf(),
            final(self).partition() == pack_step(
                old(self).partition(),
                measure.width_spec(),
                renderer.width as int,
            ),
            final(self).measures_partition() == (if step_fits(
                old(self).partition(),
                measure.width_spec(),
                renderer.width as int,
            ) {
                old(self).measures_partition().update(
                    old(self).measures_partition().len() - 1,
                    old(self).measures_partition().last().push(measure),
                )
            } else {
                old(self).measures_partition().push(seq![measure])
            }),
    {
        let ghost old_partition = old(self).partition();
        let ghost m_spec = measure.width_spec();
        let m_width = measure.width();
        let n = self.rows.len();
        if n > 0 {
            let last_width = self.rows[n - 1].width;
            proof {
                assert(self.rows@[n as int - 1].wf());
                assert(old_partition.last() == self.rows@[n as int - 1].widths());
                lemma_sum_bound(self.rows@[n as int - 1].widths());
            }
            // the original fit test `last_width + m_width < page width`,
            // rearranged so the sum is never formed
            if last_width < renderer.width - m_width {
                let mut row = self.rows.pop().unwrap();
                proof {
                    lemma_sum_push(row.widths(), m_spec);
                }
                row.measures.push(measure);
                row.width = last_width + m_width;
                proof {
                    assert(row.widths() =~= old(self).rows@[n as int - 1].widths().push(m_spec));
                    assert(row.measures@ =~= old(self).rows@[n as int - 1].measures@.push(
                        measure,
                    ));
                }
                self.rows.push(row);
                proof {
                    assert(self.partition() =~= pack_step(
                        old_partition,
                        m_spec,
                        renderer.width as int,
                    ));
                    assert(self.measures_partition() =~= old(self).measures_partition().update(
                        old(self).measures_partition().len() - 1,
                        old(self).measures_partition().last().push(measure),
                    ));
                    assert forall|i: int| 0 <= i < self.rows@.len() implies (
                    #[trigger] self.rows@[i]).wf() by {
                        if i < self.rows@.len() - 1 {
                            assert(old(self).rows@[i].wf());
                        }
                    }
                }
                return ;
            }
        }
        let row = Row { width: m_width, measures: vec![measure] };
        proof {
            assert(row.measures@ =~= seq![measure]);
            assert(row.widths() =~= seq![m_spec]);
            assert(sum(seq![m_spec].drop_last()) == 0);
            assert(row.wf());
        }
        self.rows.push(row);
        proof {
            assert(self.partition() =~= pack_step(old_partition, m_spec, renderer.width as int));
            assert(self.measures_partition() =~= old(self).measures_partition().push(
                seq![measure],
            ));
            assert forall|i: int| 0 <= i < self.rows@.len() implies (#[trigger] self.rows@[i]).wf()
                by {
                if i < self.rows@.len() - 1 {
                    assert(old(self).rows@[i].wf());
                }
            }
        }
    }
}

} // verus!
