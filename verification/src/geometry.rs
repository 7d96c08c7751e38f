//! Whole-pixel geometry shared by events, templates and the window shell.

use vstd::prelude::*;

verus! {

/// A position on the display, in whole pixels from the top-left corner.
#[derive(Clone, Copy, Debug, PartialEq, Eq, Structural)]
pub struct Point {
    pub x: u32,
    pub y: u32,
}

impl Point {
    /// Creates the point `(x, y)`.
    pub fn new(x: u32, y: u32) -> (point: Point)
        ensures
            point == (Point { x, y }),
    {
        Point { x, y }
    }
}

/// An axis-aligned rectangle given by its top-left corner and its size.
#[derive(Clone, Copy, Debug, PartialEq, Eq, Structural)]
pub struct Rectangle {
    pub x: u32,
    pub y: u32,
    pub width: u32,
    pub height: u32,
}

impl Rectangle {
    /// Creates a rectangle from its position `(x, y)` and its size `(width, height)`.
    pub fn new(position: (u32, u32), size: (u32, u32)) -> (rectangle: Rectangle)
        ensures
            rectangle == (Rectangle {
                x: position.0,
                y: position.1,
                width: size.0,
                height: size.1,
            }),
    {
        Rectangle { x: position.0, y: position.1, width: size.0, height: size.1 }
    }

    /// The x coordinate of the left edge.
    pub fn x(&self) -> (x: u32)
        ensures
            x == self.x,
    {
        self.x
    }

    /// The y coordinate of the top edge.
    pub fn y(&self) -> (y: u32)
        ensures
            y == self.y,
    {
        self.y
    }

    /// The width in pixels.
    pub fn width(&self) -> (width: u32)
        ensures
            width == self.width,
    {
        self.width
    }

    /// The height in pixels.
    pub fn height(&self) -> (height: u32)
        ensures
            height == self.height,
    {
        self.height
    }

    /// Whether the rectangle covers no pixel at all.
    pub open spec fn is_empty(self) -> bool {
        self.width == 0 || self.height == 0
    }

    /// Whether the rectangle lies inside a canvas of the given size.
    pub open spec fn fits(self, width: u32, height: u32) -> bool {
        self.x + self.width <= width && self.y + self.height <= height
    }

    /// Whether the pixel `(x, y)` lies inside the rectangle.
    pub open spec fn covers(self, x: int, y: int) -> bool {
        self.x <= x < self.x + self.width && self.y <= y < self.y + self.height
    }

    /// The part of the rectangle that lies inside a canvas of the given size.
    pub open spec fn clipped(self, width: u32, height: u32) -> Rectangle {
        let left = if self.x < width { self.x } else { width };
        let top = if self.y < height { self.y } else { height };
        let right = if self.x + self.width < width { self.x + self.width } else { width as int };
        let bottom = if self.y + self.height < height {
            self.y + self.height
        } else {
            height as int
        };
        Rectangle {
            x: left,
            y: top,
            width: (right - left) as u32,
            height: (bottom - top) as u32,
        }
    }

    /// Cuts the rectangle down to the part that lies inside a canvas of the
    /// given size. The part covers exactly the pixels of the rectangle that
    /// the canvas has.
    pub fn clip(&self, width: u32, height: u32) -> (part: Rectangle)
        ensures
            part == self.clipped(width, height),
            part.fits(width, height),
            forall|x: int, y: int|
                part.covers(x, y) <==> self.covers(x, y) && 0 <= x < width && 0 <= y < height,
    {
        let left = if self.x < width { self.x } else { width };
        let top = if self.y < height { self.y } else { height };
        let right = if self.width < width - left { left + self.width } else { width };
        let bottom = if self.height < height - top { top + self.height } else { height };
        Rectangle { x: left, y: top, width: right - left, height: bottom - top }
    }
}

/// The space kept free on the four sides of a widget, in pixels.
#[derive(Clone, Copy, Debug, PartialEq, Eq, Structural)]
pub struct Thickness {
    pub left: u32,
    pub top: u32,
    pub right: u32,
    pub bottom: u32,
}

impl Thickness {
    /// Creates a thickness from its four sides.
    pub fn new(left: u32, top: u32, right: u32, bottom: u32) -> (thickness: Thickness)
        ensures
            thickness == (Thickness { left, top, right, bottom }),
    {
        Thickness { left, top, right, bottom }
    }
}

} // verus!
