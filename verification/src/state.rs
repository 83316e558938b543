//! Shared run state, state snapshots, parameters and configuration.
//!
//! The run state is the single piece of data shared between the stepping
//! engine, the switch monitor and the external command handlers. In the full
//! system every access to it happens under one lock; this module gives the
//! state itself and the pure transitions on it, so that each handler's effect
//! is a total function from the old state to the new one.

use vstd::prelude::*;

verus! {

/// An immutable point-in-time view of the run state, minus the timeout:
/// `switch` is the physical switch's last observed position, `on` the
/// software running flag, `direction` the traversal direction of the phase
/// table. Emitted to the observer on every meaningful transition.
#[derive(Clone, Copy, Debug, PartialEq, Eq, Structural)]
pub struct StateSnapshot {
    pub switch: bool,
    pub on: bool,
    pub direction: bool,
}

/// Externally settable parameters: the run timeout in milliseconds.
#[derive(Clone, Copy, Debug, PartialEq, Eq, Structural)]
pub struct Params {
    pub timeout: u64,
}

/// The state shared across the three execution contexts: the physical
/// switch's position, the traversal direction, the running flag the stepping
/// engine waits on, and the run timeout in milliseconds.
#[derive(Clone, Copy, Debug, PartialEq, Eq, Structural)]
pub struct RunState {
    pub engaged: bool,
    pub direction: bool,
    pub running: bool,
    pub timeout: u64,
}

/// The run state a freshly constructed controller starts in: switch assumed
/// engaged, direction false, not running, a 500 ms timeout.
pub open spec fn initial_run_state() -> RunState {
    RunState { engaged: true, direction: false, running: false, timeout: 500 }
}

/// The snapshot that reports run state `r`: switch position, running flag
/// and direction, in that order.
pub open spec fn snapshot_of(r: RunState) -> StateSnapshot {
    StateSnapshot { switch: r.engaged, on: r.running, direction: r.direction }
}

/// The effect of an external state override: the supplied snapshot is
/// written through to the switch, direction and running fields directly; the
/// timeout is untouched.
pub open spec fn apply_state_spec(r: RunState, s: StateSnapshot) -> RunState {
    RunState { engaged: s.switch, direction: s.direction, running: s.on, timeout: r.timeout }
}

/// The effect of an external parameter update: only the timeout changes.
pub open spec fn apply_params_spec(r: RunState, p: Params) -> RunState {
    RunState { engaged: r.engaged, direction: r.direction, running: r.running, timeout: p.timeout }
}

/// Static configuration: the two GPIO chip paths, the line offsets of the
/// switch poles and of each coil's line pair, and the inter-step delay in
/// microseconds.
#[derive(Clone, Debug)]
pub struct Config {
    pub chip1: String,
    pub chip3: String,
    pub switch_offsets: [u32; 2],
    pub motor1_offsets: [u32; 2],
    pub motor3_offsets: [u32; 2],
    pub dt: u64,
}

} // verus!
