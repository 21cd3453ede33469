use rgui::geom::Point;
use rgui::mouse::{next_mouse_state, MouseInteractionState, HOLD_THRESHOLD_FRAMES};
use rgui::pacer::{
    frame_pause_continues, plan_frame_pause, PacerPlan, SLEEP_MARGIN_MS, TARGET_FRAME_MS,
};
use rgui::window::Mouse;

fn sample(x: u32, y: u32, left: bool, right: bool) -> Mouse {
    Mouse { pos: Point { x, y }, left, right }
}

/// Runs the machine from `Idle` over one sample per frame, starting at frame
/// counter 1, and returns every state after the initial one.
fn run(samples: &[Mouse]) -> Vec<MouseInteractionState> {
    let mut state = MouseInteractionState::Idle;
    let mut out = Vec::new();
    for (i, s) in samples.iter().enumerate() {
        state = next_mouse_state(state, s, 1 + i as u64);
        out.push(state);
    }
    out
}

#[test]
fn idle_stays_idle_without_buttons() {
    let states = run(&[sample(4, 5, false, false), sample(9, 9, false, false)]);
    assert_eq!(states, vec![MouseInteractionState::Idle, MouseInteractionState::Idle]);
}

#[test]
fn short_press_is_click_never_drags() {
    // One idle frame, three held frames (k = 3 < 5), then release.
    let up = sample(0, 0, false, false);
    let down = sample(0, 0, true, false);
    let states = run(&[up, down, down, down, up, up]);
    assert_eq!(
        states,
        vec![
            MouseInteractionState::Idle,
            MouseInteractionState::Holding { since_frame: 2 },
            MouseInteractionState::Holding { since_frame: 2 },
            MouseInteractionState::Holding { since_frame: 2 },
            MouseInteractionState::Click { left: false, right: false },
            MouseInteractionState::Idle,
        ]
    );
    for s in states {
        assert!(!matches!(s, MouseInteractionState::DragStarted));
        assert!(!matches!(s, MouseInteractionState::Dragging));
        assert!(!matches!(s, MouseInteractionState::DragEnded));
    }
}

#[test]
fn four_held_frames_still_click() {
    // k = 4 is one frame short of the threshold: still a click.
    let up = sample(0, 0, false, false);
    let down = sample(0, 0, true, false);
    let states = run(&[down, down, down, down, up]);
    assert_eq!(states[3], MouseInteractionState::Holding { since_frame: 1 });
    assert_eq!(states[4], MouseInteractionState::Click { left: false, right: false });
}

#[test]
fn five_held_frames_start_a_drag() {
    // k = 5 reaches the threshold on the fifth held frame.
    assert_eq!(HOLD_THRESHOLD_FRAMES, 5);
    let down = sample(0, 0, true, false);
    let states = run(&[down, down, down, down, down, down, down]);
    assert_eq!(states[3], MouseInteractionState::Holding { since_frame: 1 });
    assert_eq!(states[4], MouseInteractionState::DragStarted);
    assert_eq!(states[5], MouseInteractionState::Dragging);
    assert_eq!(states[6], MouseInteractionState::Dragging);
    let starts = states
        .iter()
        .filter(|s| matches!(s, MouseInteractionState::DragStarted))
        .count();
    assert_eq!(starts, 1);
}

#[test]
fn right_button_presses_count_too() {
    let down = sample(3, 3, false, true);
    let states = run(&[down]);
    assert_eq!(states[0], MouseInteractionState::Holding { since_frame: 1 });
}

#[test]
fn transients_last_exactly_one_frame() {
    // Whatever the sample says, the three edge states retire on the next step.
    for s in [sample(0, 0, false, false), sample(7, 7, true, true)] {
        assert_eq!(
            next_mouse_state(MouseInteractionState::Click { left: false, right: false }, &s, 40),
            MouseInteractionState::Idle
        );
        assert_eq!(
            next_mouse_state(MouseInteractionState::DragStarted, &s, 40),
            MouseInteractionState::Dragging
        );
        assert_eq!(
            next_mouse_state(MouseInteractionState::DragEnded, &s, 40),
            MouseInteractionState::Idle
        );
    }
}

#[test]
fn dragging_is_stable_under_a_held_button() {
    let down = sample(123, 456, true, false);
    let mut state = MouseInteractionState::Dragging;
    for frame in 10..20 {
        state = next_mouse_state(state, &down, frame);
        assert_eq!(state, MouseInteractionState::Dragging);
    }
}

#[test]
fn releasing_ends_the_drag_in_one_frame() {
    let up = sample(0, 0, false, false);
    let ended = next_mouse_state(MouseInteractionState::Dragging, &up, 33);
    assert_eq!(ended, MouseInteractionState::DragEnded);
    assert_eq!(next_mouse_state(ended, &up, 34), MouseInteractionState::Idle);
}

#[test]
fn pacer_target_is_sixty_hertz() {
    assert_eq!(TARGET_FRAME_MS, 16);
    assert_eq!(SLEEP_MARGIN_MS, 3);
}

#[test]
fn pacer_overrun_returns_immediately() {
    // 20 ms of work against a 16 ms target: no sleep, and the busy-wait's
    // continuation test fails at once.
    assert_eq!(plan_frame_pause(20, 16), PacerPlan::BusyWaitOnly);
    assert!(!frame_pause_continues(20, 16));
    assert!(!frame_pause_continues(17, 16));
}

#[test]
fn pacer_sleeps_when_there_is_room() {
    assert_eq!(plan_frame_pause(5, 16), PacerPlan::SleepThenBusyWait { sleep_ms: 13 });
    assert_eq!(plan_frame_pause(0, 16), PacerPlan::SleepThenBusyWait { sleep_ms: 13 });
    // The boundary: 13 ms of work still leaves exactly the margin.
    assert_eq!(plan_frame_pause(13, 16), PacerPlan::SleepThenBusyWait { sleep_ms: 13 });
    assert_eq!(plan_frame_pause(14, 16), PacerPlan::BusyWaitOnly);
    assert!(frame_pause_continues(16, 16));
    assert!(frame_pause_continues(0, 16));
}

#[test]
fn pacer_tiny_target_never_sleeps() {
    assert_eq!(plan_frame_pause(0, 2), PacerPlan::BusyWaitOnly);
}
