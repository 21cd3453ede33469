//! Core logic of a small interactive desktop surface.
//!
//! The library turns raw per-frame mouse snapshots into discrete interaction
//! events (click, drag-start, dragging, drag-end), drives a draggable
//! rectangular element from those events, records the draw commands a frame
//! produces, and plans the pause that keeps the frame loop at a fixed cadence.
//! Platform plumbing (native windows, the message pump, presentation) stays
//! outside; the library works on plain values handed in each frame.

pub mod draw;
pub mod element;
pub mod geom;
pub mod mouse;
pub mod pacer;
pub mod ui;
pub mod window;
