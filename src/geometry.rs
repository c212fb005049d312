//! Plain geometry values.

use vstd::prelude::*;

verus! {

/// Two dimensional rectangle, top-left origin.
///
/// Rectangles are ordered lexicographically over `x`, `y`, `width`, `height`.
#[derive(Debug, Clone, Copy, PartialEq, Eq, Structural, PartialOrd, Ord, Hash)]
pub struct Rectangle {
    /// The x coordinate of the top left corner.
    pub x: i32,
    /// The y coordinate of the top left corner.
    pub y: i32,
    /// The width of the rectangle.
    pub width: u32,
    /// The height of the rectangle.
    pub height: u32,
}

/// The extent of a rectangle, without its position.
#[derive(Debug, Clone, Copy, PartialEq, Eq, Structural, Hash)]
pub struct Size {
    /// Width in device units.
    pub width: u32,
    /// Height in device units.
    pub height: u32,
}

impl Rectangle {
    /// The extent of this rectangle.
    pub fn size(&self) -> (r: Size)
        ensures
            r.width == self.width,
            r.height == self.height,
    {
        Size { width: self.width, height: self.height }
    }

    /// A rectangle of the given extent placed at the origin.
    pub fn at_origin(size: Size) -> (r: Rectangle)
        ensures
            r.x == 0,
            r.y == 0,
            r.width == size.width,
            r.height == size.height,
    {
        Rectangle { x: 0, y: 0, width: size.width, height: size.height }
    }
}

} // verus!
