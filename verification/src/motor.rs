//! The controller core: the shared run state together with the stepping
//! engine's phase index, and the handlers that mutate or read them.
//!
//! In the full system this core sits behind a lock and a condition variable;
//! the methods here are the pure effect of each handler on the guarded
//! state. External commands overwrite the run state directly (a command
//! arriving mid-burst wins by last-writer order), the stepping engine owns
//! the phase index, and every meaningful transition yields the snapshot the
//! observer is sent.

use vstd::prelude::*;

use crate::phase::{half_step_spec, next_index_spec, rest_spec, HalfStep, NUM_HALF_STEPS};
use crate::state::{
    apply_params_spec, apply_state_spec, initial_run_state, snapshot_of, Params, RunState,
    StateSnapshot,
};
use crate::wire::{snapshot_wire_spec, state_message, state_type_url_spec};

verus! {

/// The controller core: the shared run state and the current phase index of
/// the stepping engine.
pub struct StepperMotor {
    pub run: RunState,
    pub step: usize,
}

impl StepperMotor {
    /// The core's invariant: the phase index stays inside the commutation
    /// table.
    pub open spec fn wf(self) -> bool {
        self.step < NUM_HALF_STEPS
    }

    /// A freshly constructed controller: switch assumed engaged, direction
    /// false, not running, a 500 ms timeout, phase index zero.
    pub fn new() -> (m: StepperMotor)
        ensures
            m.wf(),
            m.run == initial_run_state(),
            m.step == 0,
    {
        StepperMotor { run: initial_run_state_exec(), step: 0 }
    }

    /// Advance the phase index one half-step in the current direction and
    /// report the coil pattern to drive. The run state is untouched.
    pub fn run_motor(&mut self) -> (hs: HalfStep)
        requires
            old(self).wf(),
        ensures
            final(self).wf(),
            final(self).step == next_index_spec(old(self).step as int, old(self).run.direction),
            final(self).run == old(self).run,
            hs == half_step_spec(final(self).step as int),
    {
        let (next, hs) = crate::phase::advance(self.step, self.run.direction);
        self.step = next;
        hs
    }

    /// The pattern that stops the motor: both coils de-energized. Driven on
    /// every burst exit and on shutdown; repeated calls always return the
    /// same all-off pattern.
    pub fn pause_motor() -> (hs: HalfStep)
        ensures
            hs == rest_spec(),
    {
        crate::phase::rest()
    }

    /// The tagged message that reports the state `(switch, on, direction)`
    /// to the observer: the state type identifier and the encoded snapshot.
    pub fn send_state(switch: bool, on: bool, direction: bool) -> (m: (&'static str, Vec<u8>))
        ensures
            m.0@ == state_type_url_spec(),
            m.1@ == snapshot_wire_spec(StateSnapshot { switch, on, direction }),
    {
        let s = StateSnapshot { switch, on, direction };
        state_message(&s)
    }

    /// Apply an external state override: the snapshot's fields are written
    /// through to the run state as they stand, the timeout is kept, and the
    /// engine must be woken exactly when the override turns the running flag
    /// on. The supplied snapshot itself is what the observer is sent.
    pub fn change_state(&mut self, s: StateSnapshot) -> (wake: bool)
        ensures
            final(self).run == apply_state_spec(old(self).run, s),
            final(self).step == old(self).step,
            wake == s.on,
    {
        self.run.engaged = s.switch;
        self.run.direction = s.direction;
        self.run.running = s.on;
        s.on
    }

    /// Apply an external parameter update: only the timeout changes, and it
    /// is read again at the start of the next burst.
    pub fn set_parameters(&mut self, p: Params)
        ensures
            final(self).run == apply_params_spec(old(self).run, p),
            final(self).step == old(self).step,
    {
        self.run.timeout = p.timeout;
    }

    /// Read the current state: a pure snapshot of switch, running flag and
    /// direction, with no side effect.
    pub fn get_state(&self) -> (s: StateSnapshot)
        ensures
            s == snapshot_of(self.run),
    {
        StateSnapshot { switch: self.run.engaged, on: self.run.running, direction: self.run.direction }
    }

    /// Read the current parameters, with no side effect.
    pub fn get_parameters(&self) -> (p: Params)
        ensures
            p.timeout == self.run.timeout,
    {
        Params { timeout: self.run.timeout }
    }
}

/// The initial run state as a value.
fn initial_run_state_exec() -> (r: RunState)
    ensures
        r == initial_run_state(),
{
    RunState { engaged: true, direction: false, running: false, timeout: 500 }
}

/// A state override is reflected exactly: reading the state straight after
/// applying snapshot `s` to any run state yields `s` back, field for field.
pub proof fn lemma_get_state_reflects_change_state(r: RunState, s: StateSnapshot)
    ensures
        snapshot_of(apply_state_spec(r, s)) == s,
{
}

} // verus!
