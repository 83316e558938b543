//! The fixed half-step commutation sequence and the rest pattern.
//!
//! A full electrical cycle is eight half-steps. Each half-step energizes the
//! two lines of each of the two coils with a fixed pattern; between bursts
//! both coils are de-energized (the rest pattern), so that no coil is left
//! drawing current while the motor is idle.

use vstd::prelude::*;

verus! {

/// Number of half-steps in one full electrical cycle.
pub const NUM_HALF_STEPS: usize = 8;

/// The energization levels of the two coils for one half-step: each line
/// carries 0 or 1. `a0`/`a1` are the two lines of the first coil,
/// `b0`/`b1` those of the second.
#[derive(Clone, Copy, Debug, PartialEq, Eq, Structural)]
pub struct HalfStep {
    pub a0: u8,
    pub a1: u8,
    pub b0: u8,
    pub b1: u8,
}

/// The commutation table: the coil pattern driven at phase index `i`.
pub open spec fn half_step_spec(i: int) -> HalfStep {
    if i == 0 {
        HalfStep { a0: 0, a1: 1, b0: 1, b1: 0 }
    } else if i == 1 {
        HalfStep { a0: 0, a1: 1, b0: 0, b1: 0 }
    } else if i == 2 {
        HalfStep { a0: 0, a1: 1, b0: 0, b1: 1 }
    } else if i == 3 {
        HalfStep { a0: 0, a1: 0, b0: 0, b1: 1 }
    } else if i == 4 {
        HalfStep { a0: 1, a1: 0, b0: 0, b1: 1 }
    } else if i == 5 {
        HalfStep { a0: 1, a1: 0, b0: 0, b1: 0 }
    } else if i == 6 {
        HalfStep { a0: 1, a1: 0, b0: 1, b1: 0 }
    } else {
        HalfStep { a0: 0, a1: 0, b0: 1, b1: 0 }
    }
}

/// The de-energized pattern driven whenever motion stops.
pub open spec fn rest_spec() -> HalfStep {
    HalfStep { a0: 0, a1: 0, b0: 0, b1: 0 }
}

/// The phase index reached by one step from `i`: forward increments modulo
/// eight, backward decrements modulo eight (wrapping from 0 to 7).
pub open spec fn next_index_spec(i: int, direction: bool) -> int {
    if direction {
        (i + 1) % 8
    } else {
        (i + 7) % 8
    }
}

/// The coil pattern for phase index `index`.
pub fn half_step(index: usize) -> (r: HalfStep)
    requires
        index < NUM_HALF_STEPS,
    ensures
        r == half_step_spec(index as int),
{
    if index == 0 {
        HalfStep { a0: 0, a1: 1, b0: 1, b1: 0 }
    } else if index == 1 {
        HalfStep { a0: 0, a1: 1, b0: 0, b1: 0 }
    } else if index == 2 {
        HalfStep { a0: 0, a1: 1, b0: 0, b1: 1 }
    } else if index == 3 {
        HalfStep { a0: 0, a1: 0, b0: 0, b1: 1 }
    } else if index == 4 {
        HalfStep { a0: 1, a1: 0, b0: 0, b1: 1 }
    } else if index == 5 {
        HalfStep { a0: 1, a1: 0, b0: 0, b1: 0 }
    } else if index == 6 {
        HalfStep { a0: 1, a1: 0, b0: 1, b1: 0 }
    } else {
        HalfStep { a0: 0, a1: 0, b0: 1, b1: 0 }
    }
}

/// Advance the phase index one half-step in the given direction and report
/// the coil pattern to drive at the new index. Backward motion from index 0
/// wraps to index 7 explicitly; no intermediate value ever leaves `[0, 8)`.
pub fn advance(index: usize, direction: bool) -> (r: (usize, HalfStep))
    requires
        index < NUM_HALF_STEPS,
    ensures
        r.0 < NUM_HALF_STEPS,
        r.0 == next_index_spec(index as int, direction),
        r.1 == half_step_spec(r.0 as int),
{
    let next: usize = if direction {
        (index + 1) % 8
    } else {
        (index + 7) % 8
    };
    (next, half_step(next))
}

/// The rest pattern: both coils fully de-energized. Every call returns the
/// same `(0, 0), (0, 0)` pattern.
pub fn rest() -> (r: HalfStep)
    ensures
        r == rest_spec(),
        r.a0 == 0 && r.a1 == 0 && r.b0 == 0 && r.b1 == 0,
{
    HalfStep { a0: 0, a1: 0, b0: 0, b1: 0 }
}

/// One forward step followed by one backward step returns to the index it
/// started from.
pub proof fn lemma_forward_backward_round_trip(i: int)
    requires
        0 <= i < 8,
    ensures
        next_index_spec(next_index_spec(i, true), false) == i,
{
}

} // verus!
