//! The per-frame orchestration: advance the frame counter, record the
//! window's fresh mouse snapshot, step the interaction state machine, update
//! every element in registration order, and render every element into a
//! bitmap sized to the window.
//!
//! The surrounding loop owns the clock and the platform: it drains the
//! message pump before calling `update` and hands the rendered bitmap to the
//! presentation collaborator after `render`.

use vstd::prelude::*;
use crate::draw::{Bitmap, DrawOp};
use crate::element::Element;
use crate::mouse::{next_mouse_state, spec_next_mouse_state, MouseInteractionState};
use crate::window::{Mouse, State, Window};

verus! {

/// The draw commands a frame produces: every element's commands in
/// registration order, later elements painting over earlier ones.
pub open spec fn spec_frame_ops(elements: Seq<Element>) -> Seq<DrawOp>
    decreases elements.len(),
{
    if elements.len() == 0 {
        Seq::empty()
    } else {
        spec_frame_ops(elements.drop_last()) + elements.last().spec_render_ops()
    }
}

/// The owner of the interaction state: the window's input snapshot, the
/// frame counter, and the mouse state machine.
pub struct UI {
    pub window: Window,
    /// Incremented exactly once per frame, never reset.
    pub frame_counter: u64,
    pub mouse: MouseInteractionState,
}

impl UI {
    /// The whole frame-step effect on the owner itself: the counter advances,
    /// the snapshot is recorded, and the machine steps under the new counter.
    pub open spec fn spec_step(self, sample: Mouse) -> UI {
        UI {
            window: Window {
                handle: self.window.handle,
                state: State { mouse: sample, size: self.window.state.size },
            },
            frame_counter: (self.frame_counter + 1) as u64,
            mouse: spec_next_mouse_state(self.mouse, sample, (self.frame_counter + 1) as u64),
        }
    }

    pub fn new(window: Window) -> (ui: Self)
        ensures
            ui.window == window,
            ui.frame_counter == 0,
            ui.mouse == MouseInteractionState::Idle,
    {
        Self { window, frame_counter: 0, mouse: MouseInteractionState::Idle }
    }

    /// One frame of input interpretation. `sample` is the window's snapshot
    /// after the platform drained its pending messages; each element then
    /// observes the new interaction state and the snapshot's cursor, in
    /// registration order.
    pub fn update(&mut self, sample: Mouse, elements: &mut Vec<Element>)
        requires
            old(self).frame_counter < u64::MAX,
            forall|j: int| 0 <= j < old(elements)@.len() ==> (#[trigger] old(elements)@[j]).wf(),
            forall|j: int| 0 <= j < old(elements)@.len() ==> (#[trigger] old(elements)@[j])
                .update_fits(old(self).spec_step(sample).mouse, sample.pos),
        ensures
            *final(self) == old(self).spec_step(sample),
            final(elements)@.len() == old(elements)@.len(),
            forall|j: int| 0 <= j < old(elements)@.len() ==> final(elements)@[j]
                == (#[trigger] old(elements)@[j])
                    .spec_update(old(self).spec_step(sample).mouse, sample.pos),
            forall|j: int| 0 <= j < old(elements)@.len()
                ==> (#[trigger] final(elements)@[j]).wf(),
    {
        self.frame_counter = self.frame_counter + 1;
        self.window.state.mouse = sample;
        self.mouse = next_mouse_state(self.mouse, &sample, self.frame_counter);

        let mouse = self.mouse;
        let cursor = sample.pos;
        let ghost orig = elements@;
        let mut i: usize = 0;
        while i < elements.len()
            invariant
                0 <= i <= elements@.len(),
                elements@.len() == orig.len(),
                mouse == old(self).spec_step(sample).mouse,
                cursor == sample.pos,
                forall|j: int| 0 <= j < orig.len() ==> (#[trigger] orig[j]).wf(),
                forall|j: int| 0 <= j < orig.len() ==> (#[trigger] orig[j])
                    .update_fits(mouse, cursor),
                forall|j: int| i <= j < orig.len() ==> elements@[j] == orig[j],
                forall|j: int| 0 <= j < i ==> elements@[j]
                    == (#[trigger] orig[j]).spec_update(mouse, cursor),
                forall|j: int| 0 <= j < i ==> (#[trigger] elements@[j]).wf(),
            decreases elements@.len() - i,
        {
            proof {
                assert(elements@[i as int] == orig[i as int]);
            }
            elements[i].update(mouse, cursor);
            i = i + 1;
        }
    }

    /// One frame of output: a fresh bitmap sized to the window, with every
    /// element's draw commands recorded in registration order.
    pub fn render(&self, elements: &Vec<Element>) -> (bitmap: Bitmap)
        requires
            forall|j: int| 0 <= j < elements@.len() ==> (#[trigger] elements@[j]).wf(),
            forall|j: int| 0 <= j < elements@.len() ==> (#[trigger] elements@[j]).render_fits(),
        ensures
            bitmap.size == self.window.state.size,
            bitmap.ops@ =~= spec_frame_ops(elements@),
    {
        let mut bitmap = Bitmap::new(self.window.state.size);
        let mut i: usize = 0;
        while i < elements.len()
            invariant
                0 <= i <= elements@.len(),
                forall|j: int| 0 <= j < elements@.len() ==> (#[trigger] elements@[j]).wf(),
                forall|j: int| 0 <= j < elements@.len()
                    ==> (#[trigger] elements@[j]).render_fits(),
                bitmap.size == self.window.state.size,
                bitmap.ops@ =~= spec_frame_ops(elements@.take(i as int)),
            decreases elements@.len() - i,
        {
            elements[i].render(&mut bitmap);
            proof {
                assert(elements@.take(i + 1).drop_last() =~= elements@.take(i as int));
                assert(elements@.take(i + 1).last() == elements@[i as int]);
            }
            i = i + 1;
        }
        proof {
            assert(elements@.take(elements@.len() as int) =~= elements@);
        }
        bitmap
    }
}

} // verus!
