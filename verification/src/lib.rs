//! Planning layer of a Metal compute backend for arrays of 32-bit floats.
//!
//! Every operation of the backend is a single compute pass: buffers are made
//! visible to the device, one kernel is bound together with its buffers, a
//! grid of thread groups is launched, and the host waits for the device
//! before it reads the result. This crate decides everything about such a
//! pass that can be decided without touching the device: which kernel runs,
//! whether its pipeline has to be compiled first, how long each buffer is,
//! which buffer goes to which slot, and how many thread groups are launched.
//! The caller carries the decisions out on the device and reports back what
//! the device said.

pub mod backend;
pub mod buffer;
pub mod dispatch;
pub mod error;
pub mod feature;
pub mod grid;
pub mod host;
pub mod kernel;
