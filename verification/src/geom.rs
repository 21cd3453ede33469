//! Exact-integer geometry for the surface: sizes and positions in pixels.

use vstd::prelude::*;

verus! {

/// Width and height of an axis-aligned region, in pixels.
#[derive(Clone, Copy, Debug, PartialEq, Eq, Structural)]
pub struct Rect2 {
    pub width: u32,
    pub height: u32,
}

impl Rect2 {
    pub fn new(width: u32, height: u32) -> (r: Self)
        ensures
            r.width == width,
            r.height == height,
    {
        Self { width, height }
    }
}

/// A position, or a displacement between two positions, in window-client
/// coordinates. The surface uses exact unsigned integers throughout; there is
/// no sub-pixel behaviour.
#[derive(Clone, Copy, Debug, PartialEq, Eq, Structural)]
pub struct Point {
    pub x: u32,
    pub y: u32,
}

impl Point {
    pub fn new(x: u32, y: u32) -> (p: Self)
        ensures
            p.x == x,
            p.y == y,
    {
        Self { x, y }
    }
}

} // verus!
