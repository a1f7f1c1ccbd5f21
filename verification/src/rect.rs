//! Change-region value types: rectangles whose pixel content changed and
//! rectangles whose content moved from another position.

use vstd::prelude::*;

verus! {

/// A rectangle in pixel coordinates, top-left origin, marking a region whose
/// pixel content changed since the previous frame.
#[derive(Debug, Clone, Copy, PartialEq, Eq, Structural)]
pub struct DirtyRect {
    pub top: i32,
    pub left: i32,
    pub right: i32,
    pub bottom: i32,
}

impl DirtyRect {
    pub fn new(top: i32, right: i32, bottom: i32, left: i32) -> (r: DirtyRect)
        ensures
            r == (DirtyRect { top, left, right, bottom }),
    {
        DirtyRect { top, left, right, bottom }
    }
}

/// The prior top-left position of a moved region.
#[derive(Debug, Clone, Copy, PartialEq, Eq, Structural)]
pub struct MovedPoint {
    pub x: i32,
    pub y: i32,
}

impl MovedPoint {
    pub fn new(x: i32, y: i32) -> (r: MovedPoint)
        ensures
            r == (MovedPoint { x, y }),
    {
        MovedPoint { x, y }
    }
}

/// Pixels that now appear at `destination` previously had their top-left
/// corner at `source_origin`.
#[derive(Debug, Clone, Copy, PartialEq, Eq, Structural)]
pub struct MovedRect {
    pub destination: DirtyRect,
    pub source_origin: MovedPoint,
}

impl MovedRect {
    pub fn new(destination: DirtyRect, source_origin: MovedPoint) -> (r: MovedRect)
        ensures
            r == (MovedRect { destination, source_origin }),
    {
        MovedRect { destination, source_origin }
    }
}

/// Law: constructing a `MovedRect` from raw destination and source values and
/// reading back `destination` and `source_origin` yields the original values
/// unchanged.
pub proof fn lemma_moved_rect_round_trip(destination: DirtyRect, source_origin: MovedPoint)
    ensures
        (MovedRect { destination, source_origin }).destination == destination,
        (MovedRect { destination, source_origin }).source_origin == source_origin,
{
}

} // verus!
