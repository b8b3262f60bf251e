//! Measure packing, slack distribution and page rendering.

use std::cell::RefCell;
use std::rc::Rc;

use staff::render::{Measure, Renderer, Slack, Staff};

/// Writes a big-endian u16.
fn be16(out: &mut Vec<u8>, v: u16) {
    out.extend_from_slice(&v.to_be_bytes());
}

/// Writes a big-endian u32.
fn be32(out: &mut Vec<u8>, v: u32) {
    out.extend_from_slice(&v.to_be_bytes());
}

/// Writes a big-endian i16.
fn be16i(out: &mut Vec<u8>, v: i16) {
    out.extend_from_slice(&v.to_be_bytes());
}

/// A minimal TrueType font: just the three required tables (head, hhea,
/// maxp), enough for the font to parse. It maps no characters and has no
/// outlines.
fn tiny_font() -> Vec<u8> {
    let mut head: Vec<u8> = Vec::new();
    be32(&mut head, 0x00010000);
    be32(&mut head, 0);
    be32(&mut head, 0);
    be32(&mut head, 0x5F0F3CF5);
    be16(&mut head, 0);
    be16(&mut head, 1000);
    head.extend_from_slice(&[0u8; 16]);
    be16i(&mut head, 0);
    be16i(&mut head, 0);
    be16i(&mut head, 500);
    be16i(&mut head, 700);
    be16(&mut head, 0);
    be16(&mut head, 8);
    be16i(&mut head, 2);
    be16i(&mut head, 0);
    be16i(&mut head, 0);

    let mut hhea: Vec<u8> = Vec::new();
    be32(&mut hhea, 0x00010000);
    be16i(&mut hhea, 800);
    be16i(&mut hhea, -200);
    be16i(&mut hhea, 0);
    hhea.extend_from_slice(&[0u8; 24]);
    be16(&mut hhea, 2);

    let mut maxp: Vec<u8> = Vec::new();
    be32(&mut maxp, 0x00010000);
    be16(&mut maxp, 2);
    maxp.extend_from_slice(&[0u8; 26]);

    let tables: Vec<([u8; 4], Vec<u8>)> =
        vec![(*b"head", head), (*b"hhea", hhea), (*b"maxp", maxp)];
    let mut font: Vec<u8> = Vec::new();
    be32(&mut font, 0x00010000);
    be16(&mut font, tables.len() as u16);
    be16(&mut font, 32);
    be16(&mut font, 1);
    be16(&mut font, 16);
    let mut offset: u32 = 12 + 16 * tables.len() as u32;
    for (tag, data) in &tables {
        font.extend_from_slice(tag);
        be32(&mut font, 0);
        be32(&mut font, offset);
        be32(&mut font, data.len() as u32);
        offset += ((data.len() as u32) + 3) & !3;
    }
    for (_, data) in &tables {
        font.extend_from_slice(data);
        while font.len() % 4 != 0 {
            font.push(0);
        }
    }
    font
}

fn renderer() -> Renderer {
    Renderer::from_font_data(tiny_font()).expect("the minimal font should parse")
}

/// One call a measure received: its cursor, baseline, slack numerator,
/// slack count and index within the row.
type Call = (i64, i64, i64, usize, usize);

/// A test measure with a fixed width; it draws nothing, records the
/// arguments it was rendered with, and advances the cursor by its width.
#[derive(Clone)]
struct TestMeasure {
    w: i64,
    log: Rc<RefCell<Vec<Call>>>,
}

impl Measure for TestMeasure {
    fn width(&self) -> i64 {
        self.w
    }

    fn svg(
        &self,
        x: i64,
        y: i64,
        extra: Slack,
        index: usize,
        _renderer: &Renderer,
        _node: &mut svg::Document,
    ) -> i64 {
        self.log.borrow_mut().push((x, y, extra.num, extra.count, index));
        x + self.w
    }
}

fn measures(widths: &[i64]) -> (Vec<TestMeasure>, Rc<RefCell<Vec<Call>>>) {
    let log: Rc<RefCell<Vec<Call>>> = Rc::new(RefCell::new(Vec::new()));
    let ms: Vec<TestMeasure> = widths.iter().map(|w| TestMeasure { w: *w, log: log.clone() }).collect();
    (ms, log)
}

fn push_all(staff: &mut Staff<TestMeasure>, r: &Renderer, ms: Vec<TestMeasure>) {
    for m in ms {
        assert!(0 <= m.w && m.w <= staff::render::LEN_MAX);
        staff.push(r, m);
    }
}

#[test]
fn default_configuration() {
    let r = renderer();
    assert_eq!(r.document_padding, 80);
    assert_eq!(r.note_rx, 40);
    assert_eq!(r.note_ry, 24);
    assert_eq!(r.padding, 40);
    assert_eq!(r.stroke_width, 6);
    assert_eq!(r.accidental_size, 320);
    assert_eq!(r.width, 2000);
    assert_eq!(r.height, 800);
    assert_eq!(r.min_spacing, 72);
}

#[test]
fn garbage_font_is_rejected() {
    assert!(Renderer::from_font_data(vec![1, 2, 3, 4]).is_none());
}

#[test]
fn three_equal_measures_wrap_after_two() {
    // three measures of width 200 px on a 500 px page: the first two
    // share a row, the third wraps (in base units: 800 each, page 2000)
    let r = renderer();
    let mut staff: Staff<TestMeasure> = Staff::default();
    let (ms, _log) = measures(&[800, 800, 800]);
    push_all(&mut staff, &r, ms);
    assert_eq!(staff.row_count(), 2);
    assert_eq!(staff.row_len(0), 2);
    assert_eq!(staff.row_len(1), 1);
    assert_eq!(staff.row_width(0), 1600);
    assert_eq!(staff.row_width(1), 800);
}

#[test]
fn overwide_measure_stands_alone() {
    // a measure wider than the page still becomes a row of one; rows of
    // two or more always sum to under the page width
    let r = renderer();
    let mut staff: Staff<TestMeasure> = Staff::default();
    let (ms, _log) = measures(&[1900, 300, 2500]);
    push_all(&mut staff, &r, ms);
    assert_eq!(staff.row_count(), 3);
    assert_eq!(staff.row_width(0), 1900);
    assert_eq!(staff.row_width(1), 300);
    assert_eq!(staff.row_width(2), 2500);
    for k in 0..staff.row_count() {
        assert!(staff.row_width(k) < r.width || staff.row_len(k) == 1);
    }
}

#[test]
fn fit_test_is_strict() {
    // two measures filling the page width exactly do not share a row:
    // the fit test demands strictly less than the page width
    let r = renderer();
    let mut staff: Staff<TestMeasure> = Staff::default();
    let (ms, _log) = measures(&[1000, 1000]);
    push_all(&mut staff, &r, ms);
    assert_eq!(staff.row_count(), 2);
}

#[test]
fn packing_is_deterministic() {
    // pushing the same widths twice yields identical row partitions
    let r = renderer();
    let widths: [i64; 6] = [400, 480, 800, 900, 650, 120];
    let mut a: Staff<TestMeasure> = Staff::default();
    let mut b: Staff<TestMeasure> = Staff::default();
    let (ms, _log) = measures(&widths);
    push_all(&mut a, &r, ms);
    let (ms, _log) = measures(&widths);
    push_all(&mut b, &r, ms);
    assert_eq!(a.row_count(), b.row_count());
    for k in 0..a.row_count() {
        assert_eq!(a.row_len(k), b.row_len(k));
        assert_eq!(a.row_width(k), b.row_width(k));
    }
}

#[test]
fn slack_of_two_measures() {
    // widths 100 and 120 px on a 500 px page with 20 px padding give
    // each measure 120 px of slack (base units: 400 + 480 on 2000 with
    // padding 80 give 480 each)
    let r = renderer();
    let s = r.row_slack(880, 2);
    assert_eq!(s.num, 960);
    assert_eq!(s.count, 2);
    assert_eq!(s.num / s.count as i64, 480);
}

#[test]
fn slack_conservation() {
    // total width plus count times the per-measure slack spans the page
    // between the padded margins exactly
    let r = renderer();
    let total: i64 = 880;
    let s = r.row_slack(total, 2);
    assert_eq!(total + s.num, r.width - 2 * r.document_padding);
    assert_eq!(
        s.count as i64 * total + s.count as i64 * s.num,
        s.count as i64 * (r.width - 2 * r.document_padding)
    );
}

#[test]
fn slack_can_be_negative() {
    // an over-wide row gets negative slack, never a failure
    let r = renderer();
    let s = r.row_slack(2500, 1);
    assert_eq!(s.num, 2000 - 2500 - 160);
    assert_eq!(s.count, 1);
}

#[test]
fn row_baselines_step_by_row_height() {
    // row k sits at 100 px times k, whatever the rows hold
    assert_eq!(Renderer::row_baseline(0), 0);
    assert_eq!(Renderer::row_baseline(1), 400);
    assert_eq!(Renderer::row_baseline(2), 800);
    assert_eq!(Renderer::row_baseline(7), 2800);
}

#[test]
fn empty_staff_renders_background_only() {
    // an empty staff gives a document with exactly one shape: the
    // full-page background rectangle
    let r = renderer();
    let staff: Staff<TestMeasure> = Staff::default();
    let doc = r.render(&staff);
    let text = doc.to_string();
    assert_eq!(text.matches("<rect").count(), 1);
    assert_eq!(text.matches("<line").count(), 0);
    assert_eq!(text.matches("<path").count(), 0);
    assert!(text.contains("width=\"8000\""));
    assert!(text.contains("height=\"3200\""));
    assert!(text.contains("fill=\"#fff\""));
}

/// A measure that draws one horizontal line at its own baseline.
struct LineMeasure {
    w: i64,
}

impl Measure for LineMeasure {
    fn width(&self) -> i64 {
        self.w
    }

    fn svg(
        &self,
        x: i64,
        y: i64,
        _extra: Slack,
        _index: usize,
        _renderer: &Renderer,
        node: &mut svg::Document,
    ) -> i64 {
        svg::Node::append(
            node,
            svg::node::element::Line::new()
                .set("x1", x)
                .set("y1", y)
                .set("x2", x + self.w)
                .set("y2", y),
        );
        x + self.w
    }
}

#[test]
fn render_accumulates_measure_output() {
    // what measures draw lands in the document after the background, one
    // drawable per measure here, each at its row's baseline
    let r = renderer();
    let mut staff: Staff<LineMeasure> = Staff::default();
    for w in [800, 800, 800] {
        staff.push(&r, LineMeasure { w });
    }
    let text = r.render(&staff).to_string();
    assert_eq!(text.matches("<rect").count(), 1);
    assert_eq!(text.matches("<line").count(), 3);
    assert_eq!(text.matches("y1=\"0\"").count(), 2);
    assert_eq!(text.matches("y1=\"400\"").count(), 1);
}

#[test]
fn render_hands_each_measure_its_row_geometry() {
    // two rows: the first row's measures see baseline 0 and share its
    // slack; the wrapped third measure sees baseline 400 and a slack of
    // its own; each measure starts where its predecessor stopped
    let r = renderer();
    let mut staff: Staff<TestMeasure> = Staff::default();
    let (ms, log) = measures(&[800, 800, 800]);
    push_all(&mut staff, &r, ms);
    let _doc = r.render(&staff);
    let calls = log.borrow();
    let start: i64 = r.stroke_width + r.document_padding;
    assert_eq!(
        *calls,
        vec![
            (start, 0, 2000 - 1600 - 160, 2, 0),
            (start + 800, 0, 2000 - 1600 - 160, 2, 1),
            (start, 400, 2000 - 800 - 160, 1, 0),
        ]
    );
}
