//! The draggable rectangle element and its drag controller.
//!
//! An element owns its position, size, colour and drag state. Each frame it
//! reads the current interaction state: a `NotMoving` element captures a drag
//! whose cursor lies within its bounds, a `Moving` element tracks the cursor
//! at a fixed offset, and any state other than `Dragging` releases it.

use vstd::prelude::*;
use crate::draw::{Bitmap, DrawOp, RGB};
use crate::geom::{Point, Rect2};
use crate::mouse::{button_down, spec_next_mouse_state, MouseInteractionState};
use crate::window::Mouse;

verus! {

/// Thickness, in pixels, of the highlight border drawn around an element
/// while it is being dragged.
pub const BORDER_THICKNESS: u32 = 3;

/// The fill colour every element is reset to at the start of each update.
pub open spec fn spec_default_fill_color() -> RGB {
    RGB { r: 0, g: 0, b: 200 }
}

/// The highlight colour of the border drawn while an element is captured.
pub open spec fn spec_border_color() -> RGB {
    RGB { r: 255, g: 0, b: 0 }
}

/// Whether an element is captured by an in-progress drag.
#[derive(Clone, Copy, Debug, PartialEq, Eq, Structural)]
pub enum DragState {
    NotMoving,
    /// Captured. `start_offset` is the vector from the element's origin to
    /// the cursor at the moment the drag was captured; it stays constant for
    /// the whole drag, so the element tracks the cursor without snapping its
    /// origin to it.
    Moving { start_offset: Point },
}

/// A draggable filled rectangle.
#[derive(Clone, Copy, Debug, PartialEq, Eq, Structural)]
pub struct Rectangle {
    pub pos: Point,
    pub size: Rect2,
    pub color: RGB,
    pub moving: DragState,
}

impl Rectangle {
    /// The element's corner coordinates stay representable: its far edges
    /// `pos + size` fit in the coordinate type.
    pub open spec fn wf(self) -> bool {
        &&& self.pos.x + self.size.width <= u32::MAX
        &&& self.pos.y + self.size.height <= u32::MAX
    }

    /// The cursor lies within the element: inclusive lower edge, exclusive
    /// upper edge on each axis.
    pub open spec fn spec_contains(self, p: Point) -> bool {
        &&& self.pos.x <= p.x < self.pos.x + self.size.width
        &&& self.pos.y <= p.y < self.pos.y + self.size.height
    }

    /// The element one frame of update produces: reset the colour, then
    /// either capture a fresh drag, follow a held one, or release.
    pub open spec fn spec_update(self, mouse: MouseInteractionState, cursor: Point) -> Rectangle {
        match self.moving {
            DragState::NotMoving => {
                if mouse is Dragging && self.spec_contains(cursor) {
                    Rectangle {
                        pos: self.pos,
                        size: self.size,
                        color: spec_default_fill_color(),
                        moving: DragState::Moving {
                            start_offset: Point {
                                x: (cursor.x - self.pos.x) as u32,
                                y: (cursor.y - self.pos.y) as u32,
                            },
                        },
                    }
                } else {
                    Rectangle {
                        pos: self.pos,
                        size: self.size,
                        color: spec_default_fill_color(),
                        moving: DragState::NotMoving,
                    }
                }
            },
            DragState::Moving { start_offset } => {
                if mouse is Dragging {
                    Rectangle {
                        pos: Point {
                            x: (cursor.x - start_offset.x) as u32,
                            y: (cursor.y - start_offset.y) as u32,
                        },
                        size: self.size,
                        color: spec_default_fill_color(),
                        moving: DragState::Moving { start_offset },
                    }
                } else {
                    Rectangle {
                        pos: self.pos,
                        size: self.size,
                        color: spec_default_fill_color(),
                        moving: DragState::NotMoving,
                    }
                }
            },
        }
    }

    /// The machine limits a frame of update stays within: while a drag is
    /// followed, the cursor has not moved above the held offset's origin, and
    /// the moved element still fits the coordinate type.
    pub open spec fn update_fits(self, mouse: MouseInteractionState, cursor: Point) -> bool {
        self.moving matches DragState::Moving { start_offset } ==> (mouse is Dragging ==> {
            &&& start_offset.x <= cursor.x
            &&& start_offset.y <= cursor.y
            &&& cursor.x - start_offset.x + self.size.width <= u32::MAX
            &&& cursor.y - start_offset.y + self.size.height <= u32::MAX
        })
    }

    /// The border strips only exist when the element is at least as large as
    /// the border is thick.
    pub open spec fn render_fits(self) -> bool {
        self.moving is Moving ==> {
            &&& BORDER_THICKNESS <= self.size.width
            &&& BORDER_THICKNESS <= self.size.height
        }
    }

    /// The draw commands one frame of render issues: the filled body, and,
    /// while the element is captured, a highlight border as four filled
    /// strips flush against its edges.
    pub open spec fn spec_render_ops(self) -> Seq<DrawOp> {
        let body = seq![
            DrawOp::FilledRect { origin: self.pos, size: self.size, color: self.color },
        ];
        if self.moving is Moving {
            body + seq![
                DrawOp::FilledRect {
                    origin: self.pos,
                    size: Rect2 { width: BORDER_THICKNESS, height: self.size.height },
                    color: spec_border_color(),
                },
                DrawOp::FilledRect {
                    origin: Point {
                        x: (self.pos.x + self.size.width - BORDER_THICKNESS) as u32,
                        y: self.pos.y,
                    },
                    size: Rect2 { width: BORDER_THICKNESS, height: self.size.height },
                    color: spec_border_color(),
                },
                DrawOp::FilledRect {
                    origin: self.pos,
                    size: Rect2 { width: self.size.width, height: BORDER_THICKNESS },
                    color: spec_border_color(),
                },
                DrawOp::FilledRect {
                    origin: Point {
                        x: self.pos.x,
                        y: (self.pos.y + self.size.height - BORDER_THICKNESS) as u32,
                    },
                    size: Rect2 { width: self.size.width, height: BORDER_THICKNESS },
                    color: spec_border_color(),
                },
            ]
        } else {
            body
        }
    }

    /// A fresh element in the default colour, not captured.
    pub fn new(pos: Point, size: Rect2) -> (r: Self)
        ensures
            r.pos == pos,
            r.size == size,
            r.color == spec_default_fill_color(),
            r.moving == DragState::NotMoving,
    {
        Self {
            pos,
            size,
            color: RGB { r: 0, g: 0, b: 200 },
            moving: DragState::NotMoving,
        }
    }

    /// Exact-integer hit test against `[pos, pos + size)`.
    pub fn point_is_within(&self, point: Point) -> (r: bool)
        ensures
            r == self.spec_contains(point),
    {
        if point.x < self.pos.x || point.y < self.pos.y {
            return false;
        }
        point.x - self.pos.x < self.size.width && point.y - self.pos.y < self.size.height
    }

    /// One frame of the drag controller. At most one capture check and one
    /// continuation check run per call: an element captured this frame does
    /// not move until the next one, and an element already captured never
    /// re-evaluates the hit test.
    pub fn update(&mut self, mouse: MouseInteractionState, cursor: Point)
        requires
            old(self).wf(),
            old(self).update_fits(mouse, cursor),
        ensures
            *final(self) == old(self).spec_update(mouse, cursor),
            final(self).wf(),
    {
        self.color = RGB { r: 0, g: 0, b: 200 };

        if matches!(self.moving, DragState::NotMoving)
            && matches!(mouse, MouseInteractionState::Dragging)
            && self.point_is_within(cursor)
        {
            self.moving = DragState::Moving {
                start_offset: Point { x: cursor.x - self.pos.x, y: cursor.y - self.pos.y },
            };
            return;
        }

        if let DragState::Moving { start_offset } = self.moving {
            match mouse {
                MouseInteractionState::Dragging => {
                    self.pos = Point {
                        x: cursor.x - start_offset.x,
                        y: cursor.y - start_offset.y,
                    };
                },
                _ => {
                    self.moving = DragState::NotMoving;
                },
            }
        }
    }

    /// One frame of render: the body, then the highlight border while the
    /// element is captured. Mutates only the bitmap.
    pub fn render(&self, bitmap: &mut Bitmap)
        requires
            self.wf(),
            self.render_fits(),
        ensures
            final(bitmap).size == old(bitmap).size,
            final(bitmap).ops@ =~= old(bitmap).ops@ + self.spec_render_ops(),
    {
        bitmap.draw_filled_rect(self.pos, self.size, self.color);

        if let DragState::Moving { .. } = self.moving {
            let border = RGB { r: 255, g: 0, b: 0 };
            bitmap.draw_filled_rect(
                self.pos,
                Rect2 { width: BORDER_THICKNESS, height: self.size.height },
                border,
            );
            bitmap.draw_filled_rect(
                Point { x: self.pos.x + self.size.width - BORDER_THICKNESS, y: self.pos.y },
                Rect2 { width: BORDER_THICKNESS, height: self.size.height },
                border,
            );
            bitmap.draw_filled_rect(
                self.pos,
                Rect2 { width: self.size.width, height: BORDER_THICKNESS },
                border,
            );
            bitmap.draw_filled_rect(
                Point { x: self.pos.x, y: self.pos.y + self.size.height - BORDER_THICKNESS },
                Rect2 { width: self.size.width, height: BORDER_THICKNESS },
                border,
            );
        }
    }
}

/// Repetition while dragging is idempotent. With a button held, `Dragging`
/// steps to `Dragging`; and feeding a captured element the same cursor again
/// changes nothing: the recorded offset stays what capture fixed it to, and a
/// second update with the same cursor reproduces the first's result exactly.
pub proof fn lemma_dragging_idempotent(
    el: Rectangle,
    sample: Mouse,
    frame: u64,
    cursor: Point,
)
    requires
        button_down(sample),
        el.moving is Moving,
    ensures
        spec_next_mouse_state(MouseInteractionState::Dragging, sample, frame)
            == MouseInteractionState::Dragging,
        el.spec_update(MouseInteractionState::Dragging, cursor).moving == el.moving,
        el.spec_update(MouseInteractionState::Dragging, cursor).spec_update(
            MouseInteractionState::Dragging,
            cursor,
        ) == el.spec_update(MouseInteractionState::Dragging, cursor),
{
}

/// Capture happens exactly when dragging begins over the element: an
/// uncaptured element leaves its update captured if and only if the
/// interaction state is `Dragging` and the cursor lies within
/// `[pos, pos + size)`; the recorded offset is then the cursor's
/// displacement from the element's origin, and the element does not move on
/// the capture frame.
pub proof fn lemma_capture_requires_hit(
    el: Rectangle,
    mouse: MouseInteractionState,
    cursor: Point,
)
    requires
        el.moving is NotMoving,
    ensures
        el.spec_update(mouse, cursor).moving is Moving <==> (mouse is Dragging
            && el.spec_contains(cursor)),
        mouse is Dragging && el.spec_contains(cursor) ==> el.spec_update(mouse, cursor).moving
            == (DragState::Moving {
            start_offset: Point {
                x: (cursor.x - el.pos.x) as u32,
                y: (cursor.y - el.pos.y) as u32,
            },
        }),
        el.spec_update(mouse, cursor).pos == el.pos,
{
}

/// Releasing ends the drag at once: a captured element fed any interaction
/// state other than `Dragging` returns to `NotMoving` on that very frame,
/// wherever the cursor is, and does not move while letting go.
pub proof fn lemma_release_ends_drag(
    el: Rectangle,
    mouse: MouseInteractionState,
    cursor: Point,
)
    requires
        el.moving is Moving,
        !(mouse is Dragging),
    ensures
        el.spec_update(mouse, cursor).moving == DragState::NotMoving,
        el.spec_update(mouse, cursor).pos == el.pos,
{
}

/// The closed set of element variants the surface can hold. New shapes add
/// new variants here; every variant can observe the interaction state and
/// render itself into the frame's bitmap.
#[derive(Clone, Copy, Debug, PartialEq, Eq, Structural)]
pub enum Element {
    Rectangle(Rectangle),
}

impl Element {
    pub open spec fn wf(self) -> bool {
        match self {
            Element::Rectangle(r) => r.wf(),
        }
    }

    pub open spec fn update_fits(self, mouse: MouseInteractionState, cursor: Point) -> bool {
        match self {
            Element::Rectangle(r) => r.update_fits(mouse, cursor),
        }
    }

    pub open spec fn render_fits(self) -> bool {
        match self {
            Element::Rectangle(r) => r.render_fits(),
        }
    }

    pub open spec fn spec_update(self, mouse: MouseInteractionState, cursor: Point) -> Element {
        match self {
            Element::Rectangle(r) => Element::Rectangle(r.spec_update(mouse, cursor)),
        }
    }

    pub open spec fn spec_render_ops(self) -> Seq<DrawOp> {
        match self {
            Element::Rectangle(r) => r.spec_render_ops(),
        }
    }

    /// Dispatches one frame of update to the variant.
    pub fn update(&mut self, mouse: MouseInteractionState, cursor: Point)
        requires
            old(self).wf(),
            old(self).update_fits(mouse, cursor),
        ensures
            *final(self) == old(self).spec_update(mouse, cursor),
            final(self).wf(),
    {
        match self {
            Element::Rectangle(r) => r.update(mouse, cursor),
        }
    }

    /// Dispatches one frame of render to the variant.
    pub fn render(&self, bitmap: &mut Bitmap)
        requires
            self.wf(),
            self.render_fits(),
        ensures
            final(bitmap).size == old(bitmap).size,
            final(bitmap).ops@ =~= old(bitmap).ops@ + self.spec_render_ops(),
    {
        match self {
            Element::Rectangle(r) => r.render(bitmap),
        }
    }
}

} // verus!
