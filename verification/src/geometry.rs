//! Integer geometry in the logical and physical coordinate spaces of an output.

use vstd::prelude::*;

verus! {

/// A position, in whole units.
#[derive(Clone, Copy, Debug, PartialEq, Eq, Structural)]
pub struct Point {
    pub x: i32,
    pub y: i32,
}

/// A width and a height, in whole units.
#[derive(Clone, Copy, Debug, PartialEq, Eq, Structural)]
pub struct Size {
    pub w: i32,
    pub h: i32,
}

/// An axis-aligned rectangle: its top-left corner and its dimensions.
#[derive(Clone, Copy, Debug, PartialEq, Eq, Structural)]
pub struct Rectangle {
    pub loc: Point,
    pub size: Size,
}

/// The transformations an output can apply to its picture.
#[derive(Clone, Copy, Debug, PartialEq, Eq, Structural)]
pub enum Transform {
    Normal,
    _90,
    _180,
    _270,
    Flipped,
    Flipped90,
    Flipped180,
    Flipped270,
}

/// The size in logical units of `size` physical pixels at integer scale
/// `scale`: each dimension divided by the scale, the remainder dropped.
pub open spec fn spec_to_logical(size: Size, scale: int) -> Size {
    Size { w: (size.w as int / scale) as i32, h: (size.h as int / scale) as i32 }
}

impl Point {
    pub fn new(x: i32, y: i32) -> (p: Point)
        ensures
            p == (Point { x, y }),
    {
        Point { x, y }
    }
}

impl Size {
    pub fn new(w: i32, h: i32) -> (s: Size)
        ensures
            s == (Size { w, h }),
    {
        Size { w, h }
    }

    /// Neither dimension is negative.
    pub open spec fn is_valid(self) -> bool {
        self.w >= 0 && self.h >= 0
    }

    /// The size in logical units of `self` physical pixels at integer scale `scale`.
    pub fn to_logical(self, scale: i32) -> (r: Size)
        requires
            self.is_valid(),
            scale >= 1,
        ensures
            r == spec_to_logical(self, scale as int),
            r.is_valid(),
    {
        Size { w: self.w / scale, h: self.h / scale }
    }
}

impl Rectangle {
    pub fn new(loc: Point, size: Size) -> (r: Rectangle)
        ensures
            r == (Rectangle { loc, size }),
    {
        Rectangle { loc, size }
    }

    /// The x coordinate just past the right edge.
    pub open spec fn right(self) -> int {
        self.loc.x + self.size.w
    }

    /// The y coordinate just past the bottom edge.
    pub open spec fn bottom(self) -> int {
        self.loc.y + self.size.h
    }

    /// The rectangle covers `p`. The left and top edges belong to the rectangle,
    /// the right and bottom edges do not.
    pub open spec fn spec_contains(self, p: Point) -> bool {
        &&& self.loc.x <= p.x < self.right()
        &&& self.loc.y <= p.y < self.bottom()
    }

    /// The two rectangles overlap: on both axes each begins before the other
    /// ends. Rectangles that only touch do not overlap.
    pub open spec fn spec_overlaps(self, other: Rectangle) -> bool {
        &&& self.loc.x < other.right()
        &&& other.loc.x < self.right()
        &&& self.loc.y < other.bottom()
        &&& other.loc.y < self.bottom()
    }

    /// `self` does not reach beyond `outer` on any side.
    pub open spec fn spec_within(self, outer: Rectangle) -> bool {
        &&& outer.loc.x <= self.loc.x
        &&& outer.loc.y <= self.loc.y
        &&& self.right() <= outer.right()
        &&& self.bottom() <= outer.bottom()
    }

    /// Whether the rectangle covers `p`.
    pub fn contains(self, p: Point) -> (r: bool)
        ensures
            r == self.spec_contains(p),
    {
        p.x >= self.loc.x && (p.x as i64) < self.loc.x as i64 + self.size.w as i64 && p.y >= self.loc.y
            && (p.y as i64) < self.loc.y as i64 + self.size.h as i64
    }

    /// Whether the two rectangles overlap.
    pub fn overlaps(self, other: Rectangle) -> (r: bool)
        ensures
            r == self.spec_overlaps(other),
    {
        (self.loc.x as i64) < other.loc.x as i64 + other.size.w as i64 && (other.loc.x as i64)
            < self.loc.x as i64 + self.size.w as i64 && (self.loc.y as i64) < other.loc.y as i64
            + other.size.h as i64 && (other.loc.y as i64) < self.loc.y as i64 + self.size.h as i64
    }
}

impl Transform {
    /// The transformation turns the picture by a quarter turn, so that width and
    /// height change places.
    pub open spec fn swaps_axes(self) -> bool {
        self == Transform::_90 || self == Transform::_270 || self == Transform::Flipped90
            || self == Transform::Flipped270
    }

    /// The size of a picture of size `size` after the transformation.
    pub open spec fn spec_transform_size(self, size: Size) -> Size {
        if self.swaps_axes() {
            Size { w: size.h, h: size.w }
        } else {
            size
        }
    }

    /// The size of a picture of size `size` after the transformation: width
    /// and height change places for the four quarter turns.
    pub fn transform_size(self, size: Size) -> (r: Size)
        ensures
            r == self.spec_transform_size(size),
    {
        match self {
            Transform::_90 | Transform::_270 | Transform::Flipped90 | Transform::Flipped270 => Size {
                w: size.h,
                h: size.w,
            },
            _ => size,
        }
    }
}

} // verus!
