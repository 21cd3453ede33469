//! Plain-value models of the per-window state the platform layer maintains:
//! the raw mouse snapshot, the window size, and an arena of windows keyed by
//! the platform's handle value.

use vstd::prelude::*;
use crate::geom::{Point, Rect2};

verus! {

/// The raw per-frame mouse snapshot, as last captured by the window.
#[derive(Clone, Copy, Debug, PartialEq, Eq, Structural)]
pub struct Mouse {
    /// The current mouse position in window-client coordinates.
    pub pos: Point,
    /// Left mouse button down.
    pub left: bool,
    /// Right mouse button down.
    pub right: bool,
}

impl Default for Mouse {
    /// Cursor at the origin, no button down.
    fn default() -> (m: Self)
        ensures
            m.pos == (Point { x: 0, y: 0 }),
            !m.left,
            !m.right,
    {
        Self { pos: Point { x: 0, y: 0 }, left: false, right: false }
    }
}

/// State a window carries for the input and render layers: the latest mouse
/// snapshot and the current client size.
#[derive(Clone, Copy, Debug, PartialEq, Eq, Structural)]
pub struct State {
    /// Details of the mouse, as last captured by the window.
    pub mouse: Mouse,
    /// The current size of the window.
    pub size: Rect2,
}

impl Default for State {
    /// A fresh snapshot and the initial window size.
    fn default() -> (s: Self)
        ensures
            s.mouse == (Mouse { pos: Point { x: 0, y: 0 }, left: false, right: false }),
            s.size == (Rect2 { width: 900, height: 600 }),
    {
        Self {
            mouse: Mouse { pos: Point { x: 0, y: 0 }, left: false, right: false },
            size: Rect2 { width: 900, height: 600 },
        }
    }
}

/// One native window: the platform's handle value and the state kept for it.
#[derive(Clone, Copy, Debug, PartialEq, Eq, Structural)]
pub struct Window {
    /// The platform's handle for the window, as a plain value.
    pub handle: u64,
    pub state: State,
}

impl Window {
    pub fn new(handle: u64, state: State) -> (w: Self)
        ensures
            w.handle == handle,
            w.state == state,
    {
        Self { handle, state }
    }
}

/// The platform connection: the instance handle the window class was
/// registered under, as a plain value. Registration itself is platform work
/// and happens outside the library.
#[derive(Clone, Copy, Debug, PartialEq, Eq, Structural)]
pub struct Platform {
    pub handle: u64,
}

/// Used by other layers to name a window without holding a reference to it.
#[derive(Clone, Copy, Debug, PartialEq, Eq, Structural)]
pub struct WindowHandle(pub u64);

impl From<u64> for WindowHandle {
    fn from(value: u64) -> (h: Self) {
        Self(value)
    }
}

impl vstd::std_specs::convert::FromSpecImpl<u64> for WindowHandle {
    open spec fn obeys_from_spec() -> bool {
        true
    }

    open spec fn from_spec(value: u64) -> Self {
        WindowHandle(value)
    }
}

/// A handle miss: no window in the arena carries the requested handle.
#[derive(Clone, Copy, Debug, PartialEq, Eq, Structural)]
pub struct UnknownHandle;

/// An arena of windows, looked up by handle value. A miss is a fail-fast
/// error, never a silent fallback.
pub struct WindowTable(pub Vec<Window>);

impl WindowTable {
    pub fn new() -> (t: Self)
        ensures
            t.0@ =~= Seq::<Window>::empty(),
    {
        Self(Vec::new())
    }

    /// The index of the first window whose handle matches, or `UnknownHandle`
    /// when none does.
    pub fn index_of(&self, handle: WindowHandle) -> (r: Result<usize, UnknownHandle>)
        ensures
            match r {
                Ok(i) => {
                    &&& 0 <= i < self.0@.len()
                    &&& self.0@[i as int].handle == handle.0
                    &&& forall|j: int| 0 <= j < i ==> self.0@[j].handle != handle.0
                },
                Err(_) => forall|j: int|
                    0 <= j < self.0@.len() ==> self.0@[j].handle != handle.0,
            },
    {
        let mut i: usize = 0;
        while i < self.0.len()
            invariant
                0 <= i <= self.0@.len(),
                forall|j: int| 0 <= j < i ==> self.0@[j].handle != handle.0,
            decreases self.0@.len() - i,
        {
            if self.0[i].handle == handle.0 {
                return Ok(i);
            }
            i = i + 1;
        }
        Err(UnknownHandle)
    }
}

} // verus!
