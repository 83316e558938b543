use stepper_motor::engine::{
    apply_edge, begin_burst, burst_continues, burst_start_snapshot, end_burst, BurstKind,
    EdgeKind, SwitchLine,
};
use stepper_motor::motor::StepperMotor;
use stepper_motor::state::{Params, RunState, StateSnapshot};

fn idle_state() -> RunState {
    RunState { engaged: false, direction: false, running: false, timeout: 500 }
}

#[test]
fn get_state_reflects_change_state_exactly() {
    for bits in 0..8u8 {
        let s = StateSnapshot {
            switch: bits & 1 != 0,
            on: bits & 2 != 0,
            direction: bits & 4 != 0,
        };
        let mut m = StepperMotor::new();
        let wake = m.change_state(s);
        assert_eq!(wake, s.on);
        assert_eq!(m.get_state(), s);
        assert_eq!(m.get_parameters(), Params { timeout: 500 });
    }
}

#[test]
fn falling_edge_on_line_a_starts_switch_burst() {
    let mut r = idle_state();
    let wake = apply_edge(&mut r, SwitchLine::A, EdgeKind::Falling);
    assert!(wake);
    assert!(r.engaged);
    assert!(!r.direction);
    assert!(r.running);
    assert_eq!(r.timeout, 500);

    let b = begin_burst(&r);
    assert_eq!(b.kind, BurstKind::SwitchDriven);
    assert_eq!(b.timeout, 500);
    assert_eq!(
        burst_start_snapshot(&b, r.direction),
        StateSnapshot { switch: true, on: true, direction: false }
    );

    // Runs past the timeout while the switch stays engaged...
    assert!(burst_continues(&b, 499, true));
    assert!(burst_continues(&b, 500, true));
    assert!(burst_continues(&b, 10_000, true));
    // ...and past a release while the timeout has not elapsed...
    assert!(burst_continues(&b, 499, false));
    // ...but stops once the timeout has elapsed AND the switch is released.
    assert!(!burst_continues(&b, 500, false));

    let mut after = r;
    after.engaged = false;
    let end = end_burst(&b, &mut after);
    assert_eq!(end, StateSnapshot { switch: true, on: false, direction: false });
    // A switch-driven exit leaves the running flag to the switch transitions.
    assert!(after.running);
}

#[test]
fn falling_edge_on_line_b_selects_direction_true() {
    let mut r = idle_state();
    let wake = apply_edge(&mut r, SwitchLine::B, EdgeKind::Falling);
    assert!(wake);
    assert!(r.engaged && r.direction && r.running);
}

#[test]
fn rising_edge_releases_and_stops() {
    for line in [SwitchLine::A, SwitchLine::B] {
        let mut r = RunState { engaged: true, direction: true, running: true, timeout: 500 };
        let wake = apply_edge(&mut r, line, EdgeKind::Rising);
        assert!(!wake);
        assert!(!r.engaged);
        assert!(!r.running);
        // Direction and timeout are left as they were.
        assert!(r.direction);
        assert_eq!(r.timeout, 500);
    }
}

#[test]
fn command_on_idle_engine_runs_for_timeout_then_stops() {
    let mut m = StepperMotor::new();
    m.change_state(StateSnapshot { switch: false, on: false, direction: false });

    let cmd = StateSnapshot { switch: false, on: true, direction: true };
    let wake = m.change_state(cmd);
    assert!(wake);
    assert_eq!(m.get_state(), cmd);

    let b = begin_burst(&m.run);
    assert_eq!(b.kind, BurstKind::CommandDriven);
    assert_eq!(b.timeout, 500);
    assert_eq!(
        burst_start_snapshot(&b, m.run.direction),
        StateSnapshot { switch: false, on: true, direction: true }
    );

    // A command-driven burst ignores the switch entirely.
    assert!(burst_continues(&b, 499, false));
    assert!(burst_continues(&b, 499, true));
    assert!(!burst_continues(&b, 500, false));
    assert!(!burst_continues(&b, 500, true));

    let end = end_burst(&b, &mut m.run);
    assert_eq!(end, StateSnapshot { switch: false, on: false, direction: true });
    assert!(!m.run.running);
    assert_eq!(
        m.get_state(),
        StateSnapshot { switch: false, on: false, direction: true }
    );
}

#[test]
fn parameter_change_spares_active_burst_and_binds_next() {
    let mut m = StepperMotor::new();
    m.change_state(StateSnapshot { switch: false, on: true, direction: false });
    let active = begin_burst(&m.run);
    assert_eq!(active.timeout, 500);

    m.set_parameters(Params { timeout: 1000 });

    // The burst already begun keeps its captured deadline.
    assert!(!burst_continues(&active, 500, false));
    assert_eq!(active.timeout, 500);

    // A burst begun after the update uses the new value.
    let next = begin_burst(&m.run);
    assert_eq!(next.timeout, 1000);
    assert_eq!(next.kind, active.kind);
    assert!(burst_continues(&next, 500, false));
    assert!(!burst_continues(&next, 1000, false));
    assert_eq!(m.get_parameters(), Params { timeout: 1000 });
}

#[test]
fn new_controller_starts_engaged_and_idle() {
    let m = StepperMotor::new();
    assert_eq!(
        m.get_state(),
        StateSnapshot { switch: true, on: false, direction: false }
    );
    assert_eq!(m.get_parameters(), Params { timeout: 500 });
    assert_eq!(m.step, 0);
}

#[test]
fn stepping_follows_direction_and_keeps_run_state() {
    let mut m = StepperMotor::new();
    m.change_state(StateSnapshot { switch: true, on: true, direction: true });
    let before = m.run;
    let _ = m.run_motor();
    assert_eq!(m.step, 1);
    assert_eq!(m.run, before);
    m.change_state(StateSnapshot { switch: true, on: true, direction: false });
    let _ = m.run_motor();
    assert_eq!(m.step, 0);
    // Backward from index 0 wraps to 7.
    let _ = m.run_motor();
    assert_eq!(m.step, 7);
}
