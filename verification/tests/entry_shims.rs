use agc_core::display::Registers;
use agc_core::executive::Task;
use agc_core::programs::p15::{p15_servicer_exit, ALARM_HYPERBOLIC};
use agc_core::programs::p20::{init_p20, P20_PRIORITY};
use agc_core::programs::p23::{init_p23, P23_PRIORITY};
use agc_core::programs::p30_ext_dv::{enter, target_computed};
use agc_core::programs::p31::{init_p31, P31_PRIORITY};
use agc_core::programs::p32::{init_p32, P32_PRIORITY};
use agc_core::state::{AgcState, FramedStateVector};
use agc_core::types::{Frame, Met};

fn new_state() -> AgcState<(), [f64; 3]> {
    AgcState::new((), [0.0; 3])
}

fn leo(epoch: Met) -> FramedStateVector<[f64; 3]> {
    FramedStateVector {
        position: [6_671_000.0, 0.0, 0.0],
        velocity: [0.0, 7726.0, 0.0],
        epoch,
        frame: Frame::EarthInertial,
    }
}

#[test]
fn met_centiseconds_round_trip() {
    assert_eq!(Met::from_centiseconds(123_456).as_centiseconds(), 123_456);
    assert_eq!(Met::from_centiseconds(0), Met(0));
}

#[test]
fn p20_table_entry_starts_the_nav_cycle() {
    let mut state = new_state();
    state.csm_state = leo(Met(100_000));
    state.target_state = leo(Met(100_000));
    assert_eq!(init_p20(&mut state, false), (P20_PRIORITY, Some(Registers { r1: 0, r2: 0, r3: 0 })));
    assert_eq!(state.major_mode, 20);
    assert!(state.waitlist.contains_task(Task::P20NavCycle));
}

#[test]
fn p23_table_entry_starts_the_cycle() {
    let mut state = new_state();
    state.csm_state = leo(Met(100_000));
    assert_eq!(init_p23(&mut state), (P23_PRIORITY, Some(Registers { r1: 0, r2: 0, r3: 0 })));
    assert_eq!(state.major_mode, 23);
    assert!(state.waitlist.contains_task(Task::P23CycleTask));
}

#[test]
fn p31_p32_table_entries_hand_back_the_tig() {
    let mut state = new_state();
    state.time = Met(5_000);
    let (p, tig) = init_p31(&mut state, true);
    assert_eq!(p, P31_PRIORITY);
    assert_eq!(tig, Some(Met(5_000)));
    let mut state = new_state();
    state.vn.pending_tig = Some(Met(9_000));
    let (p, tig) = init_p32(&mut state, true);
    assert_eq!(p, P32_PRIORITY);
    assert_eq!(tig, Some(Met(9_000)));
    let mut state = new_state();
    let (_, tig) = init_p32(&mut state, false);
    assert_eq!(tig, None);
    assert!(state.alarm.lit);
}

#[test]
fn p15_servicer_exit_alarms_on_hyperbolic_orbit_only() {
    let mut state = new_state();
    p15_servicer_exit(&mut state, false);
    assert!(!state.alarm.lit);
    p15_servicer_exit(&mut state, true);
    assert_eq!(state.alarm.code, ALARM_HYPERBOLIC);
    assert!(state.alarm.lit);
}

#[test]
fn p30_external_delta_v_entry_and_completion_flags() {
    let mut state = new_state();
    assert_eq!(enter(&mut state, Met(720_000), [1.0, 0.0, 0.0]), 30);
    assert_eq!(state.modreg, 30);
    assert!(state.flags.updatflg && state.flags.trackflg);
    assert_eq!(state.ext_dv_tig, Met(720_000));
    assert_eq!(state.ext_dv_lvlh, Some([1.0, 0.0, 0.0]));
    assert_eq!(state.restart_phase[4], 4);
    target_computed(&mut state);
    assert!(state.flags.xdelvflg);
    assert!(!state.flags.updatflg);
    assert!(state.flags.trackflg);
}
