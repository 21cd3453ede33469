//! The mouse interaction state machine.
//!
//! Once per frame the machine classifies the window's raw mouse snapshot into
//! one of six interaction states. `Click`, `DragStarted` and `DragEnded` are
//! edge-triggered: they last exactly one frame and are retired unconditionally
//! on the next step, so every discrete gesture event is observable exactly
//! once.

use vstd::prelude::*;
use crate::window::Mouse;

verus! {

/// How many consecutive frames a button must be held before the hold becomes
/// a drag intent rather than a click.
pub const HOLD_THRESHOLD_FRAMES: u64 = 5;

/// The interaction state the machine is in at the start of a frame.
#[derive(Clone, Copy, Debug, PartialEq, Eq, Structural)]
pub enum MouseInteractionState {
    /// No button is down and no gesture is pending.
    Idle,
    /// A button has been down since `since_frame`, not yet long enough to be
    /// a drag.
    Holding { since_frame: u64 },
    /// A button was released before the hold threshold. Lasts one frame.
    /// The fields record the buttons of the sample that ended the hold.
    Click { left: bool, right: bool },
    /// The hold threshold was crossed this frame. Lasts one frame.
    DragStarted,
    /// A drag is in progress.
    Dragging,
    /// A drag stopped this frame. Lasts one frame.
    DragEnded,
}

/// True when the sample reports either button down.
pub open spec fn button_down(sample: Mouse) -> bool {
    sample.left || sample.right
}

/// The transition table: the next interaction state, given the previous
/// state, the current frame's sample, and the current frame counter.
/// Total over its whole input domain; the default is "no change".
pub open spec fn spec_next_mouse_state(
    prev: MouseInteractionState,
    sample: Mouse,
    frame: u64,
) -> MouseInteractionState {
    match prev {
        MouseInteractionState::Idle => {
            if button_down(sample) {
                MouseInteractionState::Holding { since_frame: frame }
            } else {
                MouseInteractionState::Idle
            }
        },
        MouseInteractionState::Holding { since_frame } => {
            if button_down(sample) {
                if frame >= since_frame + (HOLD_THRESHOLD_FRAMES - 1) {
                    MouseInteractionState::DragStarted
                } else {
                    prev
                }
            } else {
                MouseInteractionState::Click { left: sample.left, right: sample.right }
            }
        },
        MouseInteractionState::Click { .. } => MouseInteractionState::Idle,
        MouseInteractionState::DragStarted => MouseInteractionState::Dragging,
        MouseInteractionState::Dragging => {
            if button_down(sample) {
                MouseInteractionState::Dragging
            } else {
                MouseInteractionState::DragEnded
            }
        },
        MouseInteractionState::DragEnded => MouseInteractionState::Idle,
    }
}

/// Advances the machine by one frame. A hold becomes a drag on the frame the
/// button has been down for `HOLD_THRESHOLD_FRAMES` consecutive frames: with
/// `Holding { since_frame }` entered on the first held frame, that is the
/// frame `since_frame + HOLD_THRESHOLD_FRAMES - 1`.
pub fn next_mouse_state(
    prev: MouseInteractionState,
    sample: &Mouse,
    frame: u64,
) -> (next: MouseInteractionState)
    ensures
        next == spec_next_mouse_state(prev, *sample, frame),
{
    let down = sample.left || sample.right;
    match prev {
        MouseInteractionState::Idle => {
            if down {
                MouseInteractionState::Holding { since_frame: frame }
            } else {
                MouseInteractionState::Idle
            }
        },
        MouseInteractionState::Holding { since_frame } => {
            if down {
                if frame >= since_frame && frame - since_frame >= HOLD_THRESHOLD_FRAMES - 1 {
                    MouseInteractionState::DragStarted
                } else {
                    prev
                }
            } else {
                MouseInteractionState::Click { left: sample.left, right: sample.right }
            }
        },
        MouseInteractionState::Click { .. } => MouseInteractionState::Idle,
        MouseInteractionState::DragStarted => MouseInteractionState::Dragging,
        MouseInteractionState::Dragging => {
            if down {
                MouseInteractionState::Dragging
            } else {
                MouseInteractionState::DragEnded
            }
        },
        MouseInteractionState::DragEnded => MouseInteractionState::Idle,
    }
}

/// The run of the machine over a window of frames. `trace[0]` is `init`, the
/// state at the start of the window; `trace[i + 1]` is the state after the
/// machine consumed `samples[i]` under frame counter `first_frame + i`.
pub open spec fn mouse_trace(
    init: MouseInteractionState,
    samples: Seq<Mouse>,
    first_frame: u64,
) -> Seq<MouseInteractionState>
    decreases samples.len(),
{
    if samples.len() == 0 {
        seq![init]
    } else {
        seq![init] + mouse_trace(
            spec_next_mouse_state(init, samples[0], first_frame),
            samples.skip(1),
            (first_frame + 1) as u64,
        )
    }
}

/// A trace holds one state per consumed sample, plus the initial state.
pub proof fn lemma_mouse_trace_len(
    init: MouseInteractionState,
    samples: Seq<Mouse>,
    first_frame: u64,
)
    ensures
        mouse_trace(init, samples, first_frame).len() == samples.len() + 1,
        mouse_trace(init, samples, first_frame)[0] == init,
    decreases samples.len(),
{
    if samples.len() != 0 {
        lemma_mouse_trace_len(
            spec_next_mouse_state(init, samples[0], first_frame),
            samples.skip(1),
            (first_frame + 1) as u64,
        );
    }
}

/// Every adjacent pair of trace states is one application of the transition
/// table, at the frame counter the step ran under.
pub proof fn lemma_mouse_trace_step(
    init: MouseInteractionState,
    samples: Seq<Mouse>,
    first_frame: u64,
    i: int,
)
    requires
        0 <= i < samples.len(),
        first_frame + samples.len() <= u64::MAX,
    ensures
        mouse_trace(init, samples, first_frame)[i + 1] == spec_next_mouse_state(
            mouse_trace(init, samples, first_frame)[i],
            samples[i],
            (first_frame + i) as u64,
        ),
    decreases i,
{
    let next0 = spec_next_mouse_state(init, samples[0], first_frame);
    let inner = mouse_trace(next0, samples.skip(1), (first_frame + 1) as u64);
    lemma_mouse_trace_len(init, samples, first_frame);
    lemma_mouse_trace_len(next0, samples.skip(1), (first_frame + 1) as u64);
    if i == 0 {
        assert(mouse_trace(init, samples, first_frame)[1] == inner[0]);
    } else {
        lemma_mouse_trace_step(next0, samples.skip(1), (first_frame + 1) as u64, i - 1);
        assert(samples.skip(1)[i - 1] == samples[i]);
        assert(mouse_trace(init, samples, first_frame)[i + 1] == inner[i]);
        assert(mouse_trace(init, samples, first_frame)[i] == inner[i - 1]);
    }
}

/// The state a press that began at `first_frame` has reached `i` frames in:
/// idle before the press, holding below the threshold, the one-frame
/// drag-start edge exactly at the threshold, then dragging.
pub open spec fn press_state(first_frame: u64, i: int) -> MouseInteractionState {
    if i == 0 {
        MouseInteractionState::Idle
    } else if i < HOLD_THRESHOLD_FRAMES {
        MouseInteractionState::Holding { since_frame: first_frame }
    } else if i == HOLD_THRESHOLD_FRAMES {
        MouseInteractionState::DragStarted
    } else {
        MouseInteractionState::Dragging
    }
}

/// While the first `n` samples all report a button down, an idle machine
/// walks exactly through `press_state`: holding, then the drag-start edge on
/// the frame the hold reaches the threshold, then dragging.
pub proof fn lemma_press_trace_shape(samples: Seq<Mouse>, first_frame: u64, n: int)
    requires
        0 <= n <= samples.len(),
        first_frame + samples.len() <= u64::MAX,
        forall|i: int| 0 <= i < n ==> button_down(#[trigger] samples[i]),
    ensures
        forall|i: int| 0 <= i <= n ==> #[trigger] mouse_trace(
            MouseInteractionState::Idle,
            samples,
            first_frame,
        )[i] == press_state(first_frame, i),
    decreases n,
{
    lemma_mouse_trace_len(MouseInteractionState::Idle, samples, first_frame);
    if n > 0 {
        lemma_press_trace_shape(samples, first_frame, n - 1);
        lemma_mouse_trace_step(MouseInteractionState::Idle, samples, first_frame, n - 1);
    }
}

/// Edge-triggered invariant: `Click`, `DragStarted` and `DragEnded` are left
/// unconditionally on the very next step, whatever the sample, so each of
/// them lasts exactly one frame in any trace.
pub proof fn lemma_transients_last_one_frame(
    prev: MouseInteractionState,
    sample: Mouse,
    frame: u64,
)
    ensures
        prev is Click ==> spec_next_mouse_state(prev, sample, frame)
            == MouseInteractionState::Idle,
        prev is DragStarted ==> spec_next_mouse_state(prev, sample, frame)
            == MouseInteractionState::Dragging,
        prev is DragEnded ==> spec_next_mouse_state(prev, sample, frame)
            == MouseInteractionState::Idle,
{
}

/// A drag follows the buttons: while one stays down the machine stays
/// `Dragging`; the frame both are up it steps to the one-frame `DragEnded`
/// edge, and from there back to `Idle`.
pub proof fn lemma_drag_follows_buttons(sample: Mouse, frame: u64)
    ensures
        button_down(sample) ==> spec_next_mouse_state(
            MouseInteractionState::Dragging,
            sample,
            frame,
        ) == MouseInteractionState::Dragging,
        !button_down(sample) ==> spec_next_mouse_state(
            MouseInteractionState::Dragging,
            sample,
            frame,
        ) == MouseInteractionState::DragEnded,
{
}

/// A press shorter than the hold threshold is a click. With the machine idle
/// (where it stays while no button is down), a button held for
/// `1 <= k < HOLD_THRESHOLD_FRAMES` frames and then released drives the
/// trace `Idle`, `Holding` for the k held frames, `Click` on the release
/// frame, `Idle` again the frame after - and the trace never visits
/// `DragStarted`, `Dragging` or `DragEnded`.
pub proof fn lemma_short_press_is_click(samples: Seq<Mouse>, first_frame: u64, k: int)
    requires
        1 <= k < HOLD_THRESHOLD_FRAMES,
        samples.len() == k + 2,
        forall|i: int| 0 <= i < k ==> button_down(#[trigger] samples[i]),
        !button_down(samples[k]),
        !button_down(samples[k + 1]),
        first_frame + samples.len() <= u64::MAX,
    ensures
        ({
            let trace = mouse_trace(MouseInteractionState::Idle, samples, first_frame);
            &&& trace[0] == MouseInteractionState::Idle
            &&& forall|i: int| 1 <= i <= k ==> #[trigger] trace[i]
                == (MouseInteractionState::Holding { since_frame: first_frame })
            &&& trace[k + 1] == (MouseInteractionState::Click {
                left: samples[k].left,
                right: samples[k].right,
            })
            &&& trace[k + 2] == MouseInteractionState::Idle
            &&& forall|i: int| 0 <= i <= k + 2 ==> !(#[trigger] trace[i] is DragStarted)
                && !(trace[i] is Dragging) && !(trace[i] is DragEnded)
        }),
        forall|s: Mouse, f: u64| !button_down(s) ==> #[trigger] spec_next_mouse_state(
            MouseInteractionState::Idle,
            s,
            f,
        ) == MouseInteractionState::Idle,
{
    lemma_press_trace_shape(samples, first_frame, k);
    lemma_mouse_trace_step(MouseInteractionState::Idle, samples, first_frame, k);
    lemma_mouse_trace_step(MouseInteractionState::Idle, samples, first_frame, k + 1);
}

/// A press held to the threshold becomes a drag, exactly once. With the
/// machine idle and a button held for `k >= HOLD_THRESHOLD_FRAMES` frames,
/// the trace is `Idle`, then `Holding` while the hold is below the
/// threshold, then `DragStarted` on exactly one frame - the frame the hold
/// reaches the threshold - then `Dragging` for the rest of the hold.
pub proof fn lemma_long_press_drags(samples: Seq<Mouse>, first_frame: u64, k: int)
    requires
        k >= HOLD_THRESHOLD_FRAMES,
        samples.len() == k,
        forall|i: int| 0 <= i < k ==> button_down(#[trigger] samples[i]),
        first_frame + samples.len() <= u64::MAX,
    ensures
        ({
            let trace = mouse_trace(MouseInteractionState::Idle, samples, first_frame);
            &&& trace[0] == MouseInteractionState::Idle
            &&& forall|i: int| 1 <= i < HOLD_THRESHOLD_FRAMES ==> #[trigger] trace[i]
                == (MouseInteractionState::Holding { since_frame: first_frame })
            &&& trace[HOLD_THRESHOLD_FRAMES as int] == MouseInteractionState::DragStarted
            &&& forall|i: int| HOLD_THRESHOLD_FRAMES < i <= k ==> #[trigger] trace[i]
                == MouseInteractionState::Dragging
            &&& forall|i: int| 0 <= i <= k ==> ((#[trigger] trace[i] is DragStarted)
                <==> i == HOLD_THRESHOLD_FRAMES)
        }),
{
    lemma_press_trace_shape(samples, first_frame, k);
}

} // verus!
