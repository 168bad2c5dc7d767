//! A verified drawing engine: commands describing completed drawing actions,
//! a replay-based undo/redo stack, the pointer-event state machine that turns
//! raw pointer gestures into committed commands, an operation-log model of the
//! rendering surface, and the HSV color-picker coordinate math.

pub mod geometry;
pub mod surface;
pub mod command;
pub mod stack;
pub mod tool;
pub mod color;
pub mod picker;
