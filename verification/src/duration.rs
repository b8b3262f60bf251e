//! Note durations, supplied per note by the caller.

use vstd::prelude::*;

verus! {

/// How long a note is held. Each kind is drawn with its own note-head
/// glyph.
#[derive(Clone, Copy, PartialEq, Eq, Structural, Debug)]
pub enum DurationKind {
    Quarter,
    Half,
    Whole,
}

/// A duration: a kind plus a dotted flag. A dotted note is drawn with an
/// augmentation dot to the right of its note head.
#[derive(Clone, Copy, PartialEq, Eq, Structural, Debug)]
pub struct Duration {
    pub kind: DurationKind,
    pub is_dotted: bool,
}

impl Duration {
    /// A duration of the given kind, with or without the dot.
    pub fn new(kind: DurationKind, is_dotted: bool) -> (r: Duration)
        ensures
            r.kind == kind,
            r.is_dotted == is_dotted,
    {
        Duration { kind, is_dotted }
    }
}

} // verus!
