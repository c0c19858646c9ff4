//! Rectangles with sides of whole length.

use vstd::prelude::*;

verus! {

/// A rectangle with sides of whole length.
#[derive(Clone, Copy, Debug, PartialEq, Eq, Structural)]
pub struct Rectangle {
    pub width: u32,
    pub height: u32,
}

impl Rectangle {
    /// A rectangle of the given width and height.
    pub fn new(width: u32, height: u32) -> (rectangle: Rectangle)
        ensures
            rectangle.width == width,
            rectangle.height == height,
    {
        Rectangle { width, height }
    }

    /// The area as a mathematical integer.
    pub open spec fn spec_area(self) -> int {
        self.width * self.height
    }

    /// The area, for a rectangle whose area fits in `u32`.
    pub fn area(&self) -> (area: u32)
        requires
            self.spec_area() <= u32::MAX,
        ensures
            area == self.spec_area(),
    {
        self.width * self.height
    }

    /// Whether `other` fits strictly inside: this rectangle is both wider
    /// and higher.
    pub fn can_hold(&self, other: &Rectangle) -> (holds: bool)
        ensures
            holds == (self.width > other.width && self.height > other.height),
    {
        self.width > other.width && self.height > other.height
    }

    /// The square whose sides have the given length.
    pub fn square(size: u32) -> (rectangle: Rectangle)
        ensures
            rectangle.width == size,
            rectangle.height == size,
    {
        Rectangle { width: size, height: size }
    }
}

} // verus!
