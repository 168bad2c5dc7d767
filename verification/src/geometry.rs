//! Geometry and color primitives: device-space points, RGB colors and stroke
//! styles. Coordinates are integer device pixels.

use vstd::prelude::*;

verus! {

/// A point in device-space canvas coordinates.
#[derive(Clone, Copy, Debug, PartialEq, Eq, Structural)]
pub struct Point {
    pub x: i32,
    pub y: i32,
}

impl Point {
    /// The origin, used as the initial pointer position.
    pub fn zero() -> (p: Point)
        ensures
            p.x == 0 && p.y == 0,
    {
        Point { x: 0, y: 0 }
    }
}

/// An RGB color with one byte per channel, compared by equality.
#[derive(Clone, Copy, Debug, PartialEq, Eq, Structural)]
pub struct Color(pub u8, pub u8, pub u8);

impl Color {
    /// Splits the color into its red, green and blue channels.
    pub fn dissolve(self) -> (rgb: (u8, u8, u8))
        ensures
            rgb == (self.0, self.1, self.2),
    {
        (self.0, self.1, self.2)
    }
}

} // verus!
