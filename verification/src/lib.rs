//! Verified core of a two-coil stepper-motor controller.
//!
//! The controller drives an 8-entry half-step commutation sequence, triggered
//! either by a physical bistable switch or by external software commands, and
//! reports state snapshots to an observer. This crate holds the pure,
//! verified logic: the phase table, the shared run state and its transitions,
//! the stepping engine's burst decisions, and the wire encoding of state
//! messages. The hardware access, threads and channels that surround this
//! logic live outside the library and consume it through plain values.

pub mod engine;
pub mod motor;
pub mod phase;
pub mod state;
pub mod wire;
