use agc_core::display::Registers;
use agc_core::programs::p29::{p29_init, P29_PRIORITY};
use agc_core::programs::p30::{
    p30_display_summary, p30_init, p30_load_dv_lvlh, MajorMode, P30, P30_NOUN_TIG,
};
use agc_core::programs::p31::{p31_init, p31_store_csi, CsiError, ALARM_P31_NOT_CONVERGED};
use agc_core::programs::p32::{p32_init, p32_store_cdh, CdhError};
use agc_core::programs::p33::{
    p33_init, p33_store_intercept, InterceptError, ALARM_P33_DEGENERATE, ALARM_P33_NO_TIG, TPI_DEFAULT_TRANSFER_TIME_CS,
};
use agc_core::programs::p34::{p34_init, p34_store_intercept, ALARM_P34_TOO_CLOSE};
use agc_core::programs::p37::{p37_compute_tei, p37_init, p37_store_tei, ALARM_P37_BAD_TOF};
use agc_core::programs::p40_p41::{
    init_p40, init_p41, ALARM_DV_TOO_SMALL, ALARM_NO_PENDING_MANEUVER, ALARM_P40_WRONG_REGIME,
    ALARM_P41_WRONG_REGIME, ALARM_TIG_IN_PAST, NOUN_ENGINE_ARM, P40_MAJOR_MODE, P41_MAJOR_MODE,
    PRIORITY,
};
use agc_core::services::{dap_ignition_check, proceed_key};
use agc_core::state::{AgcState, DapMode, Maneuver, TargetingMode};
use agc_core::types::{Frame, Met};

fn new_state() -> AgcState<(), [f64; 3]> {
    AgcState::new((), [0.0; 3])
}

/// Magnitude of a delta-V vector in mm/s.
fn mm_s(dv: [f64; 3]) -> u32 {
    (libm::sqrt(dv[0] * dv[0] + dv[1] * dv[1] + dv[2] * dv[2]) * 1000.0).round() as u32
}

fn make_maneuver(dv: [f64; 3], tig: Met) -> Maneuver<[f64; 3]> {
    Maneuver { tig, delta_v: dv, dv_magnitude_mm_s: mm_s(dv), mode: TargetingMode::ExternalDeltaV }
}

#[test]
fn tc_p29_init_1_sets_program_state() {
    let mut state = new_state();
    state.vn.crew_p29_target = Some([12.3, 45.6, 100.0]);
    let (prio, registers) = p29_init(&mut state);
    assert_eq!(prio, P29_PRIORITY);
    assert_eq!(registers, Registers { r1: 0, r2: 0, r3: 0 });
    assert_eq!(state.major_mode, 29);
    assert_eq!(state.dsky.prog, 29);
    assert_eq!(state.dsky.verb, 25);
    assert_eq!(state.dsky.noun, 89);
    assert!(state.dsky.flashing);
    assert!(state.vn.crew_p29_target.is_none());
}

#[test]
fn tc_p29_flow_5_dsky_shows_prog() {
    let mut state = new_state();
    p29_init(&mut state);
    assert_eq!(state.dsky.prog, 29);
}

#[test]
fn tc_p30_3_init_sets_major_mode() {
    let mut state = new_state();
    state.major_mode = 0;
    let _ = p30_init(&mut state);
    assert_eq!(state.major_mode, 30);
    assert_eq!(state.dsky.prog, 30);
    assert_eq!(state.dsky.noun, P30_NOUN_TIG);
    assert!(state.dsky.flashing);
    assert!(state.pending_maneuver.is_none());
}

#[test]
fn p30_load_and_summary() {
    let mut state = new_state();
    state.time = Met(1_000);
    let r = p30_load_dv_lvlh(&mut state, Met(500), [1.0, 0.0, 0.0], 1000);
    assert_eq!(r, None);
    assert_eq!(state.alarm.code, 210);
    assert!(state.pending_maneuver.is_none());
    let r = p30_load_dv_lvlh(&mut state, Met(300_000), [1.0, 0.0, 0.0], 1000);
    assert_eq!(r, Some((90_000, 300_000)));
    assert_eq!(state.dsky.noun, 45);
    let m = state.pending_maneuver.unwrap();
    assert_eq!(m.mode, TargetingMode::ExternalDeltaV);
    assert_eq!(m.tig, Met(300_000));
    assert_eq!(p30_display_summary(&mut state), Some((90_000, 300_000)));
    let mut early = new_state();
    assert_eq!(p30_load_dv_lvlh(&mut early, Met(100), [0.0; 3], 0), Some((0, 100)));
}

#[test]
fn p30_as_major_mode() {
    let mut state = new_state();
    assert_eq!(P30.number(), 30);
    assert_eq!(P30.start(&mut state), 4);
    P30.terminate(&mut state);
    assert!(!state.dsky.flashing);
    P30.handle_display_input(&mut state, 6, 33);
    assert_eq!(state.dsky.noun, 33);
}

#[test]
fn tc_p31_5_init_zero_target_raises_alarm() {
    let mut state = new_state();
    state.csm_state.position = [6_571_000.0, 0.0, 0.0];
    state.csm_state.velocity = [0.0, 7784.0, 0.0];
    state.csm_state.epoch = Met(0);
    state.vn.pending_tig = Some(Met(100_000));
    assert!(state.pending_maneuver.is_none());
    // The rendezvous target position was never set (P20 never ran).
    let (_, tig) = p31_init(&mut state, false);
    assert!(tig.is_none());
    assert!(state.pending_maneuver.is_none());
    assert_eq!(state.alarm.code, 0o01434);
    assert!(state.alarm.lit);
}

#[test]
fn p31_and_p32_store_solutions() {
    let mut state = new_state();
    state.vn.pending_tig = Some(Met(100_000));
    let (_, tig) = p31_init(&mut state, true);
    assert_eq!(tig, Some(Met(100_000)));
    p31_store_csi(&mut state, Met(100_000), Err(CsiError::NotConverged));
    assert_eq!(state.alarm.code, ALARM_P31_NOT_CONVERGED);
    assert!(state.pending_maneuver.is_none());
    p31_store_csi(&mut state, Met(100_000), Ok(([3.0, 0.0, 0.0], 3000)));
    assert_eq!(state.pending_maneuver.unwrap().mode, TargetingMode::CsiBurn);
    assert_eq!(state.dsky.noun, 84);

    let mut s = new_state();
    s.time = Met(777);
    let (_, t) = p32_init(&mut s, true);
    assert_eq!(t, Some(Met(777)));
    p32_store_cdh(&mut s, Met(777), Err(CdhError::DegenerateGeometry));
    assert_eq!(s.alarm.code, 0o1437);
}

#[test]
fn p33_then_p34_share_the_arrival_epoch() {
    let mut state = new_state();
    state.vn.pending_tig = Some(Met(100_000));
    state.rendezvous_nav.epoch = Met(100_000);
    let (_, tig) = p33_init(&mut state, true);
    assert_eq!(tig, Some(Met(100_000)));
    assert!(state.vn.pending_tig.is_none());
    assert_eq!(state.major_mode, 33);
    p33_store_intercept(&mut state, Met(100_000), TPI_DEFAULT_TRANSFER_TIME_CS, Ok(([1.0, 2.0, 0.0], 2236)));
    assert_eq!(state.tpi_arrival_epoch, Some(Met(160_000)));
    assert_eq!(state.pending_maneuver.unwrap().mode, TargetingMode::TpiBurn);

    state.vn.pending_tig = Some(Met(130_000));
    let (_, times) = p34_init(&mut state, true, true);
    assert_eq!(times, Some((Met(130_000), Met(160_000))));
    assert_eq!(state.major_mode, 34);

    state.vn.pending_tig = Some(Met(155_000));
    let (_, times) = p34_init(&mut state, true, true);
    assert_eq!(times, None);
    assert_eq!(state.alarm.code, 0o1443);
}

#[test]
fn p33_alarms() {
    let mut state = new_state();
    let (_, t) = p33_init(&mut state, true);
    assert_eq!(t, None);
    assert_eq!(state.alarm.code, 0o1441);
    let mut s = new_state();
    s.vn.pending_tig = Some(Met(400_000));
    let (_, t) = p33_init(&mut s, true);
    assert_eq!(t, Some(Met(400_000)));
    assert_eq!(s.alarm.code, 0o1442);
    p33_store_intercept(&mut s, Met(400_000), TPI_DEFAULT_TRANSFER_TIME_CS, Err(InterceptError::LambertNotConverged));
    assert_eq!(s.alarm.code, 0o1444);
    assert!(s.tpi_arrival_epoch.is_none());
}

#[test]
fn p37_entry_and_tei() {
    let mut state = new_state();
    let (_, tig) = p37_init(&mut state);
    assert_eq!(tig, None);
    assert_eq!(state.alarm.code, 1411);
    let mut s = new_state();
    s.csm_state.frame = Frame::MoonInertial;
    s.time = Met(1000);
    let (prio, tig) = p37_init(&mut s);
    assert_eq!(prio, 16);
    assert_eq!(tig, Some(Met(181_000)));
    assert!(!p37_compute_tei(&mut s, 100));
    assert_eq!(s.alarm.code, 1410);
    assert!(p37_compute_tei(&mut s, 21_600_000));
    assert_eq!(p37_store_tei(&mut s, Met(181_000), [0.0, 900.0, 0.0], 900_000), Some(30));
    assert_eq!(s.pending_maneuver.unwrap().mode, TargetingMode::ReturnToEarth);
    assert_eq!(s.dsky.noun, 45);
}

#[test]
fn tc_p40_1_no_pending_maneuver_alarms() {
    let mut state = new_state();
    state.pending_maneuver = None;
    init_p40(&mut state);
    assert_eq!(state.alarm.code, ALARM_NO_PENDING_MANEUVER);
    assert!(state.alarm.lit);
    assert!(!state.burn.burn_active);
    assert!(state.servicer_exit.is_none());
}

#[test]
fn tc_p40_2_past_tig_alarms() {
    let mut state = new_state();
    state.time = Met(500_000);
    state.pending_maneuver = Some(make_maneuver([50.0, 0.0, 0.0], Met(100_000)));
    init_p40(&mut state);
    assert_eq!(state.alarm.code, ALARM_TIG_IN_PAST);
    assert!(state.pending_maneuver.is_some());
}

#[test]
fn tc_p40_3_zero_dv_alarms() {
    let mut state = new_state();
    state.time = Met(0);
    state.pending_maneuver = Some(make_maneuver([0.0, 0.0, 0.0], Met(100_000)));
    init_p40(&mut state);
    assert_eq!(state.alarm.code, ALARM_DV_TOO_SMALL);
}

#[test]
fn tc_p40_4_sub_sps_alarms() {
    let mut state = new_state();
    state.time = Met(0);
    state.pending_maneuver = Some(make_maneuver([0.2, 0.0, 0.0], Met(100_000)));
    init_p40(&mut state);
    assert_eq!(state.alarm.code, ALARM_P40_WRONG_REGIME);
    assert!(!state.burn.burn_active);
}

#[test]
fn tc_p40_5_happy_path() {
    let mut state = new_state();
    state.time = Met(0);
    let tig = Met(360_000);
    state.pending_maneuver = Some(make_maneuver([50.0, 0.0, 0.0], tig));
    let prio = init_p40(&mut state);
    assert_eq!(prio, PRIORITY);
    assert_eq!(state.alarm.code, 0);
    assert_eq!(state.major_mode, P40_MAJOR_MODE);
    assert_eq!(state.dsky.prog, P40_MAJOR_MODE);
    assert_eq!(state.dsky.verb, 50);
    assert_eq!(state.dsky.noun, NOUN_ENGINE_ARM);
    assert!(state.dsky.flashing);
    assert!(state.vn.pending_v50.is_some());
    assert!(state.burn.burn_active);
    assert_eq!(state.burn.target_dv_inertial, Some([50.0, 0.0, 0.0]));
    assert_eq!(state.burn.tig, tig);
    assert!(state.pending_maneuver.is_none());
    assert!(state.servicer_exit.is_some());
    assert_eq!(state.dap_state.mode, DapMode::Maneuver);
    assert!(!state.engine_thrusting);
}

#[test]
fn tc_p40_6_pro_arms_engine() {
    let mut state = new_state();
    state.time = Met(0);
    state.pending_maneuver = Some(make_maneuver([50.0, 0.0, 0.0], Met(360_000)));
    init_p40(&mut state);
    assert!(state.vn.pending_v50.is_some());
    assert_eq!(state.dap_state.mode, DapMode::Maneuver);
    assert!(!state.engine_thrusting);
    assert!(!state.burn.armed);

    proceed_key(&mut state);

    assert!(state.vn.pending_v50.is_none());
    assert!(!state.dsky.flashing);
    assert!(state.burn.armed);
    assert!(!state.engine_thrusting);
    assert_eq!(state.dap_state.mode, DapMode::Maneuver);

    state.time = Met(360_000 - 10);
    dap_ignition_check(&mut state);
    assert!(state.burn.armed);
    assert!(!state.engine_thrusting);
    assert_eq!(state.dap_state.mode, DapMode::Maneuver);

    state.time = Met(360_000);
    dap_ignition_check(&mut state);
    assert!(!state.burn.armed);
    assert!(state.engine_thrusting);
    assert_eq!(state.dap_state.mode, DapMode::Tvc);
}

#[test]
fn tc_p41_1_no_pending_maneuver_alarms() {
    let mut state = new_state();
    init_p41(&mut state);
    assert_eq!(state.alarm.code, ALARM_NO_PENDING_MANEUVER);
}

#[test]
fn tc_p41_2_super_rcs_alarms() {
    let mut state = new_state();
    state.time = Met(0);
    state.pending_maneuver = Some(make_maneuver([5.0, 0.0, 0.0], Met(100_000)));
    init_p41(&mut state);
    assert_eq!(state.alarm.code, ALARM_P41_WRONG_REGIME);
    assert!(!state.burn.burn_active);
}

#[test]
fn tc_p41_3_happy_path_trim_burn() {
    let mut state = new_state();
    state.time = Met(0);
    let tig = Met(100_000);
    state.pending_maneuver = Some(make_maneuver([0.2, 0.0, 0.0], tig));
    let prio = init_p41(&mut state);
    assert_eq!(prio, PRIORITY);
    assert_eq!(state.alarm.code, 0);
    assert_eq!(state.major_mode, P41_MAJOR_MODE);
    assert!(state.burn.burn_active);
    assert_eq!(state.burn.tig, tig);
    assert!(state.pending_maneuver.is_none());
    assert!(state.servicer_exit.is_some());
    assert_eq!(state.dap_state.mode, DapMode::AttitudeHold);
    assert!(!state.engine_thrusting);
}

#[test]
fn pro_without_request_does_nothing() {
    let mut state = new_state();
    proceed_key(&mut state);
    assert!(!state.burn.armed);
    assert!(state.vn.pending_v50.is_none());
}

#[test]
fn tpm_solution_keeps_the_tpi_arrival_epoch() {
    let mut state = new_state();
    state.vn.pending_tig = Some(Met(100_000));
    state.rendezvous_nav.epoch = Met(100_000);
    let (_, tig) = p33_init(&mut state, true);
    assert_eq!(tig, Some(Met(100_000)));
    p33_store_intercept(&mut state, Met(100_000), 90_000, Ok(([1.0, 2.0, 0.0], 2236)));
    assert_eq!(state.tpi_arrival_epoch, Some(Met(190_000)));
    state.vn.pending_tig = Some(Met(150_000));
    let (_, times) = p34_init(&mut state, true, true);
    assert_eq!(times, Some((Met(150_000), Met(190_000))));
    p34_store_intercept(&mut state, Met(150_000), Ok(([0.5, 0.0, 0.0], 500)));
    assert_eq!(state.tpi_arrival_epoch, Some(Met(190_000)));
    assert_eq!(state.pending_maneuver.unwrap().mode, TargetingMode::TpmBurn);
    p34_store_intercept(&mut state, Met(150_000), Err(InterceptError::DegenerateGeometry));
    assert_eq!(state.tpi_arrival_epoch, Some(Met(190_000)));
    assert_eq!(state.alarm.code, 0o1443);
}

#[test]
fn every_flyable_maneuver_goes_to_exactly_one_thrusting_program() {
    let with_maneuver = |dv: u32| {
        let mut s = new_state();
        s.time = Met(1_000);
        s.pending_maneuver =
            Some(Maneuver { tig: Met(2_000), delta_v: [0.0; 3], dv_magnitude_mm_s: dv, mode: TargetingMode::ExternalDeltaV });
        s
    };
    for dv in [499u32, 500u32] {
        let mut a = with_maneuver(dv);
        let mut b = with_maneuver(dv);
        init_p40(&mut a);
        init_p41(&mut b);
        assert!(a.pending_maneuver.is_none() != b.pending_maneuver.is_none());
        assert_eq!(a.pending_maneuver.is_none(), dv >= 500);
        assert!(!a.engine_thrusting && !b.engine_thrusting);
    }
}

fn llo_state() -> agc_core::state::FramedStateVector<[f64; 3]> {
    let r = 1_737_400.0_f64 + 100_000.0;
    let v = (4.902_800_066e12_f64 / r).sqrt();
    agc_core::state::FramedStateVector { position: [r, 0.0, 0.0], velocity: [0.0, v, 0.0], epoch: Met(0), frame: Frame::MoonInertial }
}

#[test]
fn tc_p37_5a_tof_too_short_alarms_1410() {
    let mut state = new_state();
    state.csm_state = llo_state();
    state.time = Met(0);
    // 6 hours, below the 24-hour minimum.
    assert!(!p37_compute_tei(&mut state, 2_160_000));
    assert_eq!(state.alarm.code, ALARM_P37_BAD_TOF);
    assert!(state.alarm.lit);
    assert!(state.pending_maneuver.is_none());
}

#[test]
fn tc_p37_5b_tof_too_long_alarms_1410() {
    let mut state = new_state();
    state.csm_state = llo_state();
    state.time = Met(0);
    // 200 hours, above the 120-hour maximum.
    assert!(!p37_compute_tei(&mut state, 72_000_000));
    assert_eq!(state.alarm.code, ALARM_P37_BAD_TOF);
    assert!(state.alarm.lit);
    assert!(state.pending_maneuver.is_none());
}

const R_LEO: f64 = 6_671_000.0;

fn v_circ(r: f64) -> f64 {
    (3.986_004_418e14_f64 / r).sqrt()
}

/// A P34 state: chaser at `r_c`/`v_c` with epoch and time `epoch`, and the
/// flags the entry takes for a target at `r_t`/`v_t`.
fn p34_state(r_c: [f64; 3], v_c: [f64; 3], r_t: [f64; 3], v_t: [f64; 3], epoch: Met) -> (AgcState<(), [f64; 3]>, bool, bool) {
    let mut state = new_state();
    state.csm_state = agc_core::state::FramedStateVector { position: r_c, velocity: v_c, epoch, frame: Frame::EarthInertial };
    state.time = epoch;
    let norm = |a: [f64; 3]| (a[0] * a[0] + a[1] * a[1] + a[2] * a[2]).sqrt();
    let target_present = norm(r_t) >= 1.0 && v_t != [0.0; 3];
    let range_sufficient = norm([r_t[0] - r_c[0], r_t[1] - r_c[1], r_t[2] - r_c[2]]) >= 100.0;
    (state, target_present, range_sufficient)
}

#[test]
fn tc_p34_3_no_prior_p33_alarms() {
    let vc = v_circ(R_LEO);
    let (mut state, present, far) = p34_state([R_LEO, 0.0, 0.0], [0.0, vc, 0.0], [R_LEO, 10_000.0, 0.0], [0.0, vc, 0.0], Met(100_000));
    state.vn.pending_tig = Some(Met(100_000));
    let (_, times) = p34_init(&mut state, present, far);
    assert_eq!(times, None);
    assert!(state.alarm.lit);
    assert_eq!(state.alarm.code, ALARM_P33_NO_TIG);
    assert!(state.pending_maneuver.is_none());
}

#[test]
fn tc_p34_4_arrival_already_passed_alarms() {
    let vc = v_circ(R_LEO);
    let (mut state, present, far) = p34_state([R_LEO, 0.0, 0.0], [0.0, vc, 0.0], [R_LEO, 10_000.0, 0.0], [0.0, vc, 0.0], Met(100_000));
    // TIG at 95 s, arrival 5 s later.
    state.csm_state.epoch = Met(9_500);
    state.tpi_arrival_epoch = Some(Met(10_000));
    state.vn.pending_tig = Some(Met(9_500));
    let (_, times) = p34_init(&mut state, present, far);
    assert_eq!(times, None);
    assert!(state.alarm.lit);
    assert_eq!(state.alarm.code, ALARM_P33_DEGENERATE);
    assert!(state.pending_maneuver.is_none());
}

#[test]
fn tc_p34_5_too_close_alarms() {
    let vc = v_circ(R_LEO);
    let (mut state, present, far) = p34_state([R_LEO, 0.0, 0.0], [0.0, vc, 0.0], [R_LEO, 50.0, 0.0], [0.0, vc, 0.0], Met(100_000));
    state.tpi_arrival_epoch = Some(Met(160_000));
    state.vn.pending_tig = Some(Met(100_000));
    let (_, times) = p34_init(&mut state, present, far);
    assert_eq!(times, None);
    assert!(state.alarm.lit);
    assert_eq!(state.alarm.code, ALARM_P34_TOO_CLOSE);
    assert!(state.pending_maneuver.is_none());
}
