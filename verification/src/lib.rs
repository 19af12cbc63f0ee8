//! Verified core of a keystroke-typing tool: a small pseudo-random generator,
//! the keystroke sequence for a text, the state machine that drives typing,
//! the spurt pattern of the typing rhythm, and the state of the window list.

pub mod rng;
pub mod keyboard;
pub mod session;
pub mod typing;
pub mod window_manager;
pub mod ui;
