//! Decision engine that keeps the mouse cursor confined to the display of the
//! window that is currently fullscreen.
//!
//! The crate holds the pure part of that job: the fullscreen test on window
//! and display rectangles, the classification of window-switcher overlays by
//! class name, and the per-tick state machine that turns what was observed
//! into confinement commands. Querying the window system and applying the
//! commands is left to the caller.

pub mod classifier;
pub mod displays;
pub mod geometry;
pub mod session;
pub mod machine;
pub mod laws;
pub mod observation;
