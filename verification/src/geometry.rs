//! Geometry primitives: screen-space points, axis-aligned rectangles, colors,
//! and the rectangle-overlap test that all pointer hit-testing reduces to.

use vstd::prelude::*;

verus! {

/// A screen-space point; the anchor of a text run or the top-left corner of a
/// rectangle.
#[derive(Clone, Copy, PartialEq, Eq, Structural, Debug)]
pub struct Location2 {
    pub x: i32,
    pub y: i32,
}

impl Location2 {
    pub fn new(x: i32, y: i32) -> (p: Location2)
        ensures
            p == (Location2 { x, y }),
    {
        Location2 { x, y }
    }
}

/// An axis-aligned rectangle. Well-formed rectangles have `w, h >= 0`, but no
/// operation demands it: degenerate rectangles simply never overlap anything
/// and draw nothing.
#[derive(Clone, Copy, PartialEq, Eq, Structural, Debug)]
pub struct Location4 {
    pub x: i32,
    pub y: i32,
    pub w: i32,
    pub h: i32,
}

impl Location4 {
    pub fn new(x: i32, y: i32, w: i32, h: i32) -> (r: Location4)
        ensures
            r == (Location4 { x, y, w, h }),
    {
        Location4 { x, y, w, h }
    }
}

impl From<Location4> for Location2 {
    /// Projects a rectangle to its top-left corner, dropping width and height.
    fn from(location: Location4) -> (p: Location2) {
        Location2 { x: location.x, y: location.y }
    }
}

impl vstd::std_specs::convert::FromSpecImpl<Location4> for Location2 {
    open spec fn obeys_from_spec() -> bool {
        true
    }

    open spec fn from_spec(location: Location4) -> Location2 {
        Location2 { x: location.x, y: location.y }
    }
}

/// An ARGB color with 8-bit channels; alpha is composited against an opaque
/// destination when drawn.
#[derive(Clone, Copy, PartialEq, Eq, Structural, Debug)]
pub struct Color {
    pub a: u8,
    pub r: u8,
    pub g: u8,
    pub b: u8,
}

impl Color {
    pub fn new(a: u8, r: u8, g: u8, b: u8) -> (c: Color)
        ensures
            c == (Color { a, r, g, b }),
    {
        Color { a, r, g, b }
    }
}

/// Two axis-aligned rectangles overlap when they intersect with non-zero
/// area: the standard four-inequality test.
pub open spec fn rects_overlap(a: Location4, b: Location4) -> bool {
    a.x < b.x + b.w && b.x < a.x + a.w && a.y < b.y + b.h && b.y < a.y + a.h
}

/// The overlap test is symmetric: swapping the two rectangles never changes
/// the answer.
pub proof fn lemma_rects_overlap_symmetric(a: Location4, b: Location4)
    ensures
        rects_overlap(a, b) == rects_overlap(b, a),
{
}

/// Executable overlap test; total over all rectangles (the comparisons are
/// widened so no coordinate combination overflows).
pub fn rects_overlap_exec(a: Location4, b: Location4) -> (hit: bool)
    ensures
        hit == rects_overlap(a, b),
{
    (a.x as i64) < (b.x as i64) + (b.w as i64) && (b.x as i64) < (a.x as i64) + (a.w as i64)
        && (a.y as i64) < (b.y as i64) + (b.h as i64) && (b.y as i64) < (a.y as i64) + (a.h as i64)
}

} // verus!
