use agc_core::programs::p00;
use agc_core::programs::p00_idle::{enter, is_active, is_uninitialised};
use agc_core::programs::p06;
use agc_core::programs::ProgramId;
use agc_core::state::{AgcState, DapMode, Maneuver, ServicerHook, TargetingMode};
use agc_core::types::Met;

/// Floating-point data the tests attach to the state.
#[derive(Clone, Copy, Debug, PartialEq)]
struct Nav {
    refsmmat: [[f64; 3]; 3],
}

fn new_state() -> AgcState<Nav, [f64; 3]> {
    AgcState::new(Nav { refsmmat: [[1.0, 0.0, 0.0], [0.0, 1.0, 0.0], [0.0, 0.0, 1.0]] }, [0.0; 3])
}

#[test]
fn program_id_roundtrip() {
    assert_eq!(ProgramId::from_modreg(0), Some(ProgramId::P00));
    assert_eq!(ProgramId::from_modreg(40), Some(ProgramId::P40));
    assert_eq!(ProgramId::from_modreg(99), None);
    assert_eq!(ProgramId::P37.modreg(), 37);
}

#[test]
fn every_program_round_trips_through_modreg() {
    for p in [
        ProgramId::P00, ProgramId::P11, ProgramId::P30, ProgramId::P37, ProgramId::P40,
        ProgramId::P41, ProgramId::P51, ProgramId::P52, ProgramId::P61,
    ] {
        assert_eq!(ProgramId::from_modreg(p.modreg()), Some(p));
    }
    assert_eq!(ProgramId::from_modreg(-1), None);
    assert_eq!(ProgramId::from_modreg(1), None);
}

#[test]
fn tc_p00_1_sets_major_mode_zero() {
    let mut state = new_state();
    state.major_mode = 40;
    p00::init(&mut state);
    assert_eq!(state.major_mode, 0);
}

#[test]
fn tc_p00_2_returns_low_priority() {
    let mut state = new_state();
    let prio = p00::init(&mut state);
    assert_eq!(prio, p00::PRIORITY);
    assert_eq!(prio, 1);
}

#[test]
fn tc_p00_3_cancels_active_burn() {
    let mut state = new_state();
    state.burn.burn_active = true;
    state.engine_thrusting = true;
    state.servicer_exit = Some(ServicerHook::BurnMonitor);
    p00::init(&mut state);
    assert!(!state.burn.burn_active);
    assert!(!state.engine_thrusting);
    assert!(state.servicer_exit.is_none());
}

#[test]
fn tc_p00_4_leaves_nav_state_unchanged() {
    let mut state = new_state();
    state.csm_state.position = [1.0e6, 2.0e6, 3.0e6];
    state.csm_state.velocity = [100.0, 200.0, 300.0];
    let pos_before = state.csm_state.position;
    let vel_before = state.csm_state.velocity;
    let refsmmat_before = state.nav.refsmmat;
    p00::init(&mut state);
    assert_eq!(state.csm_state.position, pos_before);
    assert_eq!(state.csm_state.velocity, vel_before);
    assert_eq!(state.nav.refsmmat, refsmmat_before);
}

#[test]
fn p00_puts_running_dap_in_attitude_hold_and_leaves_stopped_dap_off() {
    let mut state = new_state();
    state.dap_state.mode = DapMode::Tvc;
    p00::init(&mut state);
    assert_eq!(state.dap_state.mode, DapMode::AttitudeHold);
    assert_eq!(state.dsky.prog, 0);
    let mut off = new_state();
    p00::init(&mut off);
    assert_eq!(off.dap_state.mode, DapMode::Off);
}

#[test]
fn enter_sets_modreg_zero() {
    let mut state = new_state();
    state.modreg = 11;
    let prog = enter(&mut state);
    assert_eq!(prog, 0);
    assert_eq!(state.modreg, 0);
    assert!(is_active(&state));
}

#[test]
fn is_active_false_when_other_program_set() {
    let mut state = new_state();
    state.modreg = 30;
    assert!(!is_active(&state));
}

#[test]
fn enter_is_idempotent() {
    let mut state = new_state();
    enter(&mut state);
    enter(&mut state);
    assert_eq!(state.modreg, 0);
    assert!(is_active(&state));
}

#[test]
fn fresh_state_is_uninitialised() {
    let state = new_state();
    assert!(is_uninitialised(&state));
    assert!(!is_active(&state));
}

#[test]
fn enter_sets_restart_group_one_phase_four() {
    let mut state = new_state();
    enter(&mut state);
    assert_eq!(state.restart_phase[1], 4);
    assert_eq!(state.restart_phase[0], 0);
}

#[test]
fn tc_p06_1_quiesces_all_activity() {
    let mut state = new_state();
    state.dap_state.mode = DapMode::Tvc;
    state.servicer_exit = Some(ServicerHook::BurnMonitor);
    state.pending_maneuver = Some(Maneuver {
        tig: Met(0),
        delta_v: [50.0, 0.0, 0.0],
        dv_magnitude_mm_s: 50_000,
        mode: TargetingMode::ExternalDeltaV,
    });
    state.burn.burn_active = true;
    state.engine_thrusting = true;

    let prio = p06::init(&mut state);

    assert_eq!(prio, p06::PRIORITY);
    assert_eq!(prio, 1);
    assert_eq!(state.major_mode, p06::P06_MAJOR_MODE);
    assert_eq!(state.dap_state.mode, DapMode::Off);
    assert!(state.servicer_exit.is_none());
    assert!(state.pending_maneuver.is_none());
    assert!(!state.burn.burn_active);
    assert!(!state.engine_thrusting);
    assert!(state.dsky.stby);
}

#[test]
fn tc_p06_2_idempotent_on_clean_state() {
    let mut state = new_state();
    p06::init(&mut state);
    p06::init(&mut state);
    assert_eq!(state.major_mode, p06::P06_MAJOR_MODE);
    assert!(state.dsky.stby);
}

#[test]
fn p06_shows_v37_prompt() {
    let mut state = new_state();
    state.servicer_active = true;
    p06::init(&mut state);
    assert_eq!(state.dsky.verb, 37);
    assert_eq!(state.dsky.noun, 0);
    assert_eq!(state.dsky.prog, 6);
    assert!(!state.servicer_active);
}
