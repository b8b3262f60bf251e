//! Sheet music engraving.
//!
//! The crate lays musical notation out on a fixed-size page and emits an
//! SVG document: measures are packed greedily into rows to fit the page
//! width, leftover width is shared evenly across a row's measures, and
//! each glyph primitive (clef, note head, stem) computes exact geometry
//! from the shared layout configuration.
//!
//! All configuration lengths and cursor positions are integers in one
//! base layout unit. Geometry written into the document is measured in
//! *quarter units*, four to a base unit: at that scale every half- and
//! three-quarter-radius offset of the engraving formulas is an exact
//! integer, so the emitted coordinates carry no rounding at all. The
//! default configuration describes the classic five-hundred-pixel page
//! at four base units to the pixel.

pub mod duration;
pub mod glyph;
pub mod output;
pub mod render;
