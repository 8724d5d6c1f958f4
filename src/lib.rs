//! Vocabulary practice with a guided, step-by-step tutorial.
//!
//! The verified core holds the tutorial state machine, its step catalog, the
//! isolated sample session it practises on, and the per-screen key handlers
//! that decide what each key press does. Terminal drawing, sound, persistence
//! and the event loop live outside this crate and act on the decisions made here.

pub mod logic;
pub mod ui;
pub mod guarantees;
pub mod seed;
