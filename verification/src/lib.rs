//! An interactive 2D vector-drawing engine: geometric elements on a pixel
//! canvas, point snapping with exclusion sets, coincident-point group drags,
//! a create/drag interaction machine, and snapshot-based undo/redo.
//!
//! Geometry works on integer pixel coordinates and compares distances by
//! their squares, so every threshold test is exact.  Each mutating operation
//! is specified as a function on a mathematical model of the session state,
//! and the windowing shell around the crate only reads input and draws.

pub mod editor;
pub mod geometry;
pub mod history;
pub mod snap;
pub mod studio_buttons;
pub mod studio_element;
pub mod studio_elements;
pub mod studio_state;
