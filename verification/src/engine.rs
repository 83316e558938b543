//! The stepping engine's burst state machine and the switch monitor's edge
//! handling.
//!
//! The engine sits in one of three states: idle (parked on the running
//! flag), in a switch-driven burst, or in a command-driven burst. A burst
//! begins when the engine wakes; which kind it is depends only on whether
//! the physical switch is engaged at that moment. A burst captures the
//! timeout once, when it begins: a parameter change during an active burst
//! never moves that burst's deadline, only a burst begun afterwards sees the
//! new value. On every burst exit the coils are driven to the rest pattern,
//! whichever kind the burst was.
//!
//! The switch monitor watches the two poles of the bistable switch. A
//! falling edge on either pole engages the switch, selects the direction
//! that pole stands for, opens the running flag and wakes the engine; a
//! rising edge on either pole disengages the switch and clears the running flag.

use vstd::prelude::*;

use crate::state::{apply_params_spec, Params, RunState, StateSnapshot};

verus! {

/// One pole of the bistable switch. A falling edge on pole `A` selects
/// direction `false`, one on pole `B` direction `true`.
#[derive(Clone, Copy, Debug, PartialEq, Eq, Structural)]
pub enum SwitchLine {
    A,
    B,
}

/// The kind of transition observed on a switch line: a rising edge releases
/// the switch, a falling edge engages it.
#[derive(Clone, Copy, Debug, PartialEq, Eq, Structural)]
pub enum EdgeKind {
    Rising,
    Falling,
}

/// What triggered a burst: the physical switch, or an external command
/// received while the switch was not engaged.
#[derive(Clone, Copy, Debug, PartialEq, Eq, Structural)]
pub enum BurstKind {
    SwitchDriven,
    CommandDriven,
}

/// One burst of the stepping loop, as decided when the engine wakes: its
/// kind and the timeout captured at that moment, in milliseconds.
#[derive(Clone, Copy, Debug, PartialEq, Eq, Structural)]
pub struct Burst {
    pub kind: BurstKind,
    pub timeout: u64,
}

/// The direction a falling edge on a switch pole selects.
pub open spec fn line_direction(line: SwitchLine) -> bool {
    line is B
}

/// The run state after an edge on a switch pole. A rising edge releases the
/// switch and closes the running flag, leaving the direction as it was; a
/// falling edge engages the switch, selects the pole's direction and opens
/// the running flag. The timeout is untouched.
pub open spec fn edge_spec(r: RunState, line: SwitchLine, edge: EdgeKind) -> RunState {
    match edge {
        EdgeKind::Rising => RunState { engaged: false, running: false, ..r },
        EdgeKind::Falling => RunState {
            engaged: true,
            direction: line_direction(line),
            running: true,
            timeout: r.timeout,
        },
    }
}

/// The burst that begins when the engine wakes in run state `r`: switch
/// driven exactly when the switch is engaged, with the timeout read at this
/// moment.
pub open spec fn begin_burst_spec(r: RunState) -> Burst {
    Burst {
        kind: if r.engaged {
            BurstKind::SwitchDriven
        } else {
            BurstKind::CommandDriven
        },
        timeout: r.timeout,
    }
}

/// Whether burst `b` keeps stepping after `elapsed` milliseconds, with the
/// switch currently `engaged`. A switch-driven burst runs on while the
/// timeout has not elapsed or the switch is still engaged: it never stops on
/// timeout alone while the switch is held. A command-driven burst runs until
/// the timeout elapses, unconditionally.
pub open spec fn burst_continues_spec(b: Burst, elapsed: u64, engaged: bool) -> bool {
    match b.kind {
        BurstKind::SwitchDriven => elapsed < b.timeout || engaged,
        BurstKind::CommandDriven => elapsed < b.timeout,
    }
}

/// The run state after burst `b` ends. A command-driven burst closes the
/// running flag itself; a switch-driven burst leaves the state alone, since
/// the switch transitions already manage the running flag.
pub open spec fn end_burst_spec(b: Burst, r: RunState) -> RunState {
    match b.kind {
        BurstKind::SwitchDriven => r,
        BurstKind::CommandDriven => RunState { running: false, ..r },
    }
}

/// Apply an observed switch edge to the shared run state. Returns `true`
/// exactly when the stepping engine must be woken: on every falling edge,
/// which is the only transition that opens the running flag.
pub fn apply_edge(run: &mut RunState, line: SwitchLine, edge: EdgeKind) -> (wake: bool)
    ensures
        *final(run) == edge_spec(*old(run), line, edge),
        wake == (edge is Falling),
{
    match edge {
        EdgeKind::Rising => {
            run.engaged = false;
            run.running = false;
            false
        }
        EdgeKind::Falling => {
            run.engaged = true;
            run.direction = matches!(line, SwitchLine::B);
            run.running = true;
            true
        }
    }
}

/// Decide the burst that begins now that the engine has woken in run state
/// `run`, capturing the current timeout.
pub fn begin_burst(run: &RunState) -> (b: Burst)
    ensures
        b == begin_burst_spec(*run),
{
    Burst {
        kind: if run.engaged {
            BurstKind::SwitchDriven
        } else {
            BurstKind::CommandDriven
        },
        timeout: run.timeout,
    }
}

/// The snapshot published when burst `b` begins: `switch` says what
/// triggered it, `on` is true, `direction` is the direction the burst runs
/// in.
pub fn burst_start_snapshot(b: &Burst, direction: bool) -> (s: StateSnapshot)
    ensures
        s == (StateSnapshot { switch: b.kind is SwitchDriven, on: true, direction }),
{
    StateSnapshot { switch: matches!(b.kind, BurstKind::SwitchDriven), on: true, direction }
}

/// Whether burst `b` keeps stepping after `elapsed` milliseconds with the
/// switch currently `engaged`.
pub fn burst_continues(b: &Burst, elapsed: u64, engaged: bool) -> (c: bool)
    ensures
        c == burst_continues_spec(*b, elapsed, engaged),
{
    match b.kind {
        BurstKind::SwitchDriven => elapsed < b.timeout || engaged,
        BurstKind::CommandDriven => elapsed < b.timeout,
    }
}

/// End burst `b`: a command-driven burst closes the running flag, a
/// switch-driven one leaves the running flag to the switch transitions. Returns the
/// snapshot to publish: the burst's trigger with `on` now false. The caller
/// drives the rest pattern on every exit, whichever kind the burst was.
pub fn end_burst(b: &Burst, run: &mut RunState) -> (s: StateSnapshot)
    ensures
        *final(run) == end_burst_spec(*b, *old(run)),
        s == (StateSnapshot {
            switch: b.kind is SwitchDriven,
            on: false,
            direction: old(run).direction,
        }),
{
    match b.kind {
        BurstKind::SwitchDriven => {}
        BurstKind::CommandDriven => {
            run.running = false;
        }
    }
    StateSnapshot {
        switch: matches!(b.kind, BurstKind::SwitchDriven),
        on: false,
        direction: run.direction,
    }
}

/// A parameter update takes effect on the next burst, never the active one.
/// The burst record captured when the engine woke in state `r` decides its
/// continuation from the timeout it holds — the value `r.timeout` had at
/// capture — so an update arriving mid-burst cannot move the deadline
/// already in force; a burst begun after the update is of the same kind but
/// captures the new timeout.
pub proof fn lemma_parameters_apply_to_next_burst(
    r: RunState,
    p: Params,
    elapsed: u64,
    engaged: bool,
)
    ensures
        burst_continues_spec(begin_burst_spec(r), elapsed, engaged) == (if r.engaged {
            elapsed < r.timeout || engaged
        } else {
            elapsed < r.timeout
        }),
        begin_burst_spec(apply_params_spec(r, p)) == (Burst {
            kind: begin_burst_spec(r).kind,
            timeout: p.timeout,
        }),
{
}

} // verus!
