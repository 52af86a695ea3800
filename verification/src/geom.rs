//! Integer geometry shared by the widget and its pipeline.

use vstd::prelude::*;

verus! {

/// The product of two 32-bit numbers, which always fits in 64 bits.
pub fn product(a: u32, b: u32) -> (n: u64)
    ensures
        n == a * b,
{
    assert(a * b <= 0xFFFF_FFFE_0000_0001) by (nonlinear_arith)
        requires
            a <= 0xFFFF_FFFF,
            b <= 0xFFFF_FFFF,
    ;
    (a as u64) * (b as u64)
}

/// A position on the display surface.
#[derive(Debug, Clone, Copy, PartialEq, Eq, Structural)]
pub struct Point {
    pub x: i32,
    pub y: i32,
}

impl Point {
    /// The point in column `x`, row `y`.
    pub fn new(x: i32, y: i32) -> (p: Point)
        ensures
            p == (Point { x, y }),
    {
        Point { x, y }
    }
}

/// A layout rectangle: where a widget sits and how large its raster must be.
#[derive(Debug, Clone, Copy, PartialEq, Eq, Structural)]
pub struct Rect {
    pub x: i32,
    pub y: i32,
    pub w: u32,
    pub h: u32,
}

impl Rect {
    /// The rectangle `w` wide and `h` high whose top-left corner is at `(x, y)`.
    pub fn new(x: i32, y: i32, w: u32, h: u32) -> (r: Rect)
        ensures
            r == (Rect { x, y, w, h }),
    {
        Rect { x, y, w, h }
    }

    /// The number of bytes an RGBA raster of this rectangle's size takes.
    pub open spec fn byte_len(self) -> int {
        4 * (self.w * self.h)
    }

    /// The rectangle's top-left corner.
    pub fn top_left(&self) -> (p: Point)
        ensures
            p == (Point { x: self.x, y: self.y }),
    {
        Point { x: self.x, y: self.y }
    }

    /// Whether a raster of this rectangle's size can be held in memory at all.
    pub fn fits_memory(&self) -> (fits: bool)
        ensures
            fits == (self.byte_len() <= usize::MAX),
    {
        product(self.w, self.h) <= (usize::MAX / 4) as u64
    }
}

/// Horizontal placement of a raster inside a wider rectangle.
#[derive(Debug, Clone, Copy, PartialEq, Eq, Structural)]
pub enum Alignment {
    Left,
    Center,
    Right,
}

/// The column at which a raster `raster_w` wide starts inside a rectangle
/// `rect_w` wide. A raster wider than the rectangle starts at column zero.
pub open spec fn align_offset(alignment: Alignment, rect_w: u32, raster_w: u32) -> u32 {
    let slack: u32 = if raster_w > rect_w {
        0u32
    } else {
        (rect_w - raster_w) as u32
    };
    match alignment {
        Alignment::Left => 0,
        Alignment::Center => slack / 2,
        Alignment::Right => slack,
    }
}

impl Alignment {
    /// The column at which a raster `raster_w` wide is placed in a rectangle `rect_w` wide.
    pub fn offset(self, rect_w: u32, raster_w: u32) -> (x: u32)
        ensures
            x == align_offset(self, rect_w, raster_w),
            self == Alignment::Left ==> x == 0,
            self == Alignment::Center ==> x == (if raster_w > rect_w {
                0
            } else {
                (rect_w - raster_w) / 2
            }),
            self == Alignment::Right ==> x == (if raster_w > rect_w {
                0
            } else {
                rect_w - raster_w
            }),
            x + raster_w <= rect_w || x == 0,
    {
        match self {
            Alignment::Left => 0,
            Alignment::Center => rect_w.saturating_sub(raster_w) / 2,
            Alignment::Right => rect_w.saturating_sub(raster_w),
        }
    }
}

} // verus!
