//! Measuring how long sandboxes take to answer, cold and warm, across a
//! fleet that moves in step, and making the snapshots that such sandboxes
//! are restored from.
//!
//! The library decides and computes; it touches no file, socket, clock or
//! process. Workers and tasks say what is to be done next, and are told how
//! it went.

pub mod bench;
pub mod control;
pub mod delay;
pub mod fleet;
pub mod jitter;
pub mod layout;
pub mod liveness;
pub mod rendezvous;
pub mod report;
pub mod sandbox;
pub mod snapshot;
pub mod text;
pub mod wire;
pub mod worker;

pub use bench::{BenchCmd, BenchError, CallShape, Invocation, Reply};
pub use delay::{Delay, Delays, Measurement};
pub use wire::{ServiceResponse, WireDuration};
