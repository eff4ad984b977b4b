//! A pitch-shifting vocoder whose per-frame work runs on a GPU.
//!
//! This crate holds the host side of the vocoder that can be stated and
//! proved: how a sample stream is cut into frames and put back together,
//! the words uploaded for each stage's parameters, the fixed order in which
//! the stages' descriptor sets are bound, and the orchestrator's protocol
//! with its cross-frame running state. Samples travel as the IEEE-754 bit
//! patterns of single-precision floats, which is exactly what the device
//! buffers hold.

pub mod frame;
pub mod settings;
pub mod orchestrator;
pub mod bindings;
