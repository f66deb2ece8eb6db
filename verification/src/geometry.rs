//! Screen positions and the rectangle that confines the pointer.

use vstd::prelude::*;
use crate::kinetics::clamp_i32;

verus! {

/// A position in screen coordinates.
#[derive(Clone, Copy, Debug, PartialEq, Eq, Structural)]
pub struct Point {
    pub x: i32,
    pub y: i32,
}

/// A rectangle in screen coordinates; `right` and `bottom` lie outside it.
#[derive(Clone, Copy, Debug, PartialEq, Eq, Structural)]
pub struct Rect {
    pub left: i32,
    pub top: i32,
    pub right: i32,
    pub bottom: i32,
}

impl Rect {
    /// The rectangle that holds the pointer at `p`: one unit wide and one
    /// unit high, with `p` as its upper left corner. At the largest
    /// coordinate there is no room for the unit, and the side stays empty.
    pub open spec fn unit_at(p: Point) -> Rect {
        Rect {
            left: p.x,
            top: p.y,
            right: clamp_i32(p.x + 1) as i32,
            bottom: clamp_i32(p.y + 1) as i32,
        }
    }

    /// The upper left corner.
    pub open spec fn corner(self) -> Point {
        Point { x: self.left, y: self.top }
    }

    /// Whether the rectangle is one unit wide and one unit high.
    pub open spec fn is_unit(self) -> bool {
        self.right == self.left + 1 && self.bottom == self.top + 1
    }

    /// The all-zero rectangle that a loop holds before its first gesture.
    pub fn zero() -> (rect: Rect)
        ensures
            rect == (Rect { left: 0, top: 0, right: 0, bottom: 0 }),
    {
        Rect { left: 0, top: 0, right: 0, bottom: 0 }
    }

    /// Builds the rectangle that holds the pointer at `p`.
    pub fn at(p: Point) -> (rect: Rect)
        ensures
            rect == Rect::unit_at(p),
            rect.corner() == p,
            p.x < i32::MAX && p.y < i32::MAX ==> rect.is_unit(),
    {
        let right: i32 = if p.x < i32::MAX { p.x + 1 } else { i32::MAX };
        let bottom: i32 = if p.y < i32::MAX { p.y + 1 } else { i32::MAX };
        Rect { left: p.x, top: p.y, right, bottom }
    }

    /// Whether two rectangles are the same, side by side.
    pub fn same(&self, other: &Rect) -> (same: bool)
        ensures
            same == (*self == *other),
    {
        self.left == other.left && self.top == other.top && self.right == other.right
            && self.bottom == other.bottom
    }
}

} // verus!
