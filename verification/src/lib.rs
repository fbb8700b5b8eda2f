//! Runtime core of a small real-time 3D application framework.
//!
//! The crate turns a host's window and input events into a once-per-frame
//! execution contract: an edge-triggered button state machine, a frame timer,
//! window options, a close flag and the frame orchestration state machine
//! that sequences them.

pub mod flow;
pub mod key_state;
pub mod keys;
pub mod input;
pub mod input_laws;
pub mod window_options;
pub mod camera;
pub mod time;
pub mod state;
pub mod app;
pub mod app_laws;
