//! Control logic for a small monochrome pixel display with push buttons and a
//! joystick: the display command pipeline, the classification of input lines
//! into events, and the fan-out of those events to subscribers.
//!
//! The crate performs no I/O. Every operation that touches hardware or a
//! remote peer is expressed as a value handed to the caller, who performs it
//! and reports the outcome back.

pub mod event;
pub mod bus;
pub mod frame;
pub mod text;
pub mod display;
pub mod display_trace;
pub mod event_bus;
pub mod fanout;
pub mod subscription;
pub mod delivery;
pub mod lifecycle;
pub mod input;
pub mod provider;
pub mod actor;
pub mod backend;
