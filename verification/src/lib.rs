//! A drawing engine on whole-number coordinates: a scene of editable
//! shapes, a camera between WORLD and SCREEN space, the tools that create
//! shapes, and the state machine that selects, drags, resizes and deletes
//! them.

pub mod numeric;
pub mod primitives;
pub mod input;
pub mod painter;
pub mod paint_object;
pub mod tool;
pub mod engine;
pub mod floating_window;
pub mod color_selector;
