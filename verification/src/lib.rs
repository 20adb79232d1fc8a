//! A fall-detection alarm controller.
//!
//! Motion samples are classified into fall events, a small state machine
//! turns the event stream into edge-triggered alarm commands, and the
//! actuator decides what the display and the speaker have to do.

pub mod config;
pub mod classifier;
pub mod machine;
pub mod glyph;
pub mod speaker;
pub mod tone;
pub mod context;
pub mod scheduler;
pub mod controller;
