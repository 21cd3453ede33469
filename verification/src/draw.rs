//! The frame's draw surface, modelled as a command recorder.
//!
//! Elements render by issuing filled-rectangle and point commands; the bitmap
//! records them in order. Later commands paint over earlier ones (painter's
//! algorithm), so the recorded order is the visible stacking order. Turning
//! the commands into pixels is the presentation collaborator's work.

use vstd::prelude::*;
use crate::geom::{Point, Rect2};

verus! {

/// An RGB colour, one byte per channel.
#[derive(Clone, Copy, Debug, PartialEq, Eq, Structural)]
pub struct RGB {
    pub r: u8,
    pub g: u8,
    pub b: u8,
}

impl RGB {
    pub fn new(r: u8, g: u8, b: u8) -> (c: Self)
        ensures
            c.r == r,
            c.g == g,
            c.b == b,
    {
        Self { r, g, b }
    }
}

/// One recorded draw command.
#[derive(Clone, Copy, Debug, PartialEq, Eq, Structural)]
pub enum DrawOp {
    /// Paint the axis-aligned rectangle `[origin, origin + size)` in `color`.
    FilledRect { origin: Point, size: Rect2, color: RGB },
    /// Paint the single pixel at `pos` in `color`.
    Point { pos: Point, color: RGB },
}

/// A frame's draw surface: its client size and the commands recorded so far,
/// oldest first.
pub struct Bitmap {
    pub size: Rect2,
    pub ops: Vec<DrawOp>,
}

impl Bitmap {
    /// An empty surface of the given size.
    pub fn new(size: Rect2) -> (b: Self)
        ensures
            b.size == size,
            b.ops@ =~= Seq::<DrawOp>::empty(),
    {
        Self { size, ops: Vec::new() }
    }

    /// Records a filled rectangle on top of everything drawn so far.
    pub fn draw_filled_rect(&mut self, origin: Point, size: Rect2, color: RGB)
        ensures
            final(self).size == old(self).size,
            final(self).ops@ =~= old(self).ops@.push(DrawOp::FilledRect { origin, size, color }),
    {
        self.ops.push(DrawOp::FilledRect { origin, size, color });
    }

    /// Records a single point on top of everything drawn so far.
    pub fn draw_point(&mut self, pos: Point, color: RGB)
        ensures
            final(self).size == old(self).size,
            final(self).ops@ =~= old(self).ops@.push(DrawOp::Point { pos, color }),
    {
        self.ops.push(DrawOp::Point { pos, color });
    }
}

} // verus!
