use agc_core::display::Registers;
use agc_core::executive::Task;
use agc_core::navigation::kalman::{CovarianceUpdate, UpdateOutcome};
use agc_core::programs::p20::{
    p20_init, p20_record_mark, p20_rectify_w_matrix, p20_rendezvous_nav_cycle, RangeClass,
    ALARM_FRAME_MISMATCH, ALARM_NO_RADAR, ALARM_REJECT_OVERRIDE, ALARM_W_OVERFLOW, P20_PRIORITY,
};
use agc_core::programs::p21::{p21_init, P21_PRIORITY};
use agc_core::programs::p22::{
    p22_check_landmark_mark, p22_cycle_task, p22_init, p22_record_mark, p22_rectify_w_matrix, P22_MAJOR_MODE,
    P22_PRIORITY,
};
use agc_core::programs::p23::{
    p23_check_mark, p23_cycle_task, p23_init, p23_record_mark, p23_rectify_w_matrix, primary_body, Body, P23_PRIORITY,
    MarkGeometry,
};
use agc_core::state::{AgcState, FramedStateVector};
use agc_core::types::{Frame, Met};

/// Floating-point navigation data carried by the tests.
#[derive(Clone, Copy, Debug, PartialEq)]
struct Nav {
    lvlh_rho: [f64; 3],
}

fn new_state() -> AgcState<Nav, [f64; 3]> {
    AgcState::new(Nav { lvlh_rho: [0.0; 3] }, [0.0; 3])
}

fn csm_leo() -> FramedStateVector<[f64; 3]> {
    FramedStateVector {
        position: [6_671_000.0, 0.0, 0.0],
        velocity: [0.0, 7726.0, 0.0],
        epoch: Met(100_000),
        frame: Frame::EarthInertial,
    }
}

fn target_leo_2km_behind() -> FramedStateVector<[f64; 3]> {
    FramedStateVector {
        position: [6_671_000.0, -2000.0, 0.0],
        velocity: [0.0, 7726.0, 0.0],
        epoch: Met(100_000),
        frame: Frame::EarthInertial,
    }
}

fn is_zero(sv: &FramedStateVector<[f64; 3]>) -> bool {
    sv.position == [0.0; 3] && sv.velocity == [0.0; 3]
}

const CLEARED: Registers = Registers { r1: 0, r2: 0, r3: 0 };

#[test]
fn tc_p20_2_init_zero_target_sv_alarms_00404() {
    let mut state = new_state();
    state.time = Met(100_000);
    state.csm_state = csm_leo();
    let zero = is_zero(&state.target_state);
    p20_init(&mut state, zero);
    assert!(!state.rendezvous_nav.tracking_active);
    assert_eq!(state.alarm.code, ALARM_NO_RADAR);
    assert!(state.alarm.lit);
    assert_eq!(state.major_mode, 20);
}

#[test]
fn tc_p20_8_frame_mismatch_on_nav_cycle_alarms_00400() {
    let mut state = new_state();
    state.time = Met(100_000);
    state.csm_state = csm_leo();
    state.target_state = target_leo_2km_behind();
    let zero = is_zero(&state.target_state);
    p20_init(&mut state, zero);
    assert!(state.rendezvous_nav.tracking_active);
    assert_eq!(state.alarm.code, 0);
    let lvlh_before = state.nav.lvlh_rho;
    state.csm_state.frame = Frame::MoonInertial;
    state.time = Met(100_200);
    let e = p20_rendezvous_nav_cycle(&mut state, RangeClass::Tracking);
    assert_eq!(state.alarm.code, ALARM_FRAME_MISMATCH);
    assert!(state.alarm.lit);
    assert!(!state.rendezvous_nav.tracking_active);
    for (i, &ref_val) in lvlh_before.iter().enumerate() {
        assert_eq!(state.nav.lvlh_rho[i], ref_val);
    }
    assert!(!e.update_display);
    assert_eq!(e.covariance, CovarianceUpdate::Unchanged);
}

#[test]
fn p20_init_happy_path_queues_nav_cycle() {
    let mut state = new_state();
    state.time = Met(100_000);
    state.csm_state = csm_leo();
    state.target_state = target_leo_2km_behind();
    let (prio, registers) = p20_init(&mut state, false);
    assert_eq!(prio, P20_PRIORITY);
    assert_eq!(registers, Some(CLEARED));
    assert_eq!(state.major_mode, 20);
    assert_eq!(state.dsky.prog, 20);
    assert!(state.rendezvous_nav.tracking_active);
    assert_eq!(state.rendezvous_nav.mark_count, 0);
    assert_eq!(state.rendezvous_nav.last_mark_time, Met(100_000));
    let entry = state.waitlist.peek(0).expect("entry");
    assert_eq!(entry.task, Task::P20NavCycle);
    assert_eq!(entry.delay_cs, 200);
}

#[test]
fn p20_nav_cycle_grows_covariance_and_shows_n54() {
    let mut state = new_state();
    state.time = Met(100_000);
    state.csm_state = csm_leo();
    state.target_state = target_leo_2km_behind();
    p20_init(&mut state, false);
    let _ = state.waitlist.pop_task();
    state.time = Met(100_200);
    let e = p20_rendezvous_nav_cycle(&mut state, RangeClass::Tracking);
    assert_eq!(e.covariance, CovarianceUpdate::Grow { dt_cs: 200 });
    assert_eq!(e.registers, None);
    assert!(e.propagate_target);
    assert!(e.update_display);
    assert_eq!(state.dsky.verb, 16);
    assert_eq!(state.dsky.noun, 54);
    assert_eq!(state.rendezvous_nav.epoch, Met(100_200));
    assert_eq!(state.waitlist.len(), 1);
}

#[test]
fn p20_nav_cycle_after_an_hour_rectifies() {
    let mut state = new_state();
    state.major_mode = 20;
    state.rendezvous_nav.mark_count = 7;
    state.rendezvous_nav.last_mark_time = Met(0);
    state.time = Met(360_001);
    let e = p20_rendezvous_nav_cycle(&mut state, RangeClass::TooClose);
    assert_eq!(e.covariance, CovarianceUpdate::Reinitialise);
    assert_eq!(e.registers, Some(CLEARED));
    assert_eq!(state.rendezvous_nav.mark_count, 0);
    assert_eq!(state.rendezvous_nav.last_mark_time, Met(360_001));
    assert_eq!(state.alarm.code, ALARM_NO_RADAR);
    assert!(!state.rendezvous_nav.tracking_active);
}

#[test]
fn p20_five_consecutive_rejects_stop_tracking() {
    let mut state = new_state();
    state.rendezvous_nav.tracking_active = true;
    for _ in 0..4 {
        p20_record_mark(&mut state, UpdateOutcome::Rejected, Met(0));
        assert!(state.rendezvous_nav.tracking_active);
    }
    p20_record_mark(&mut state, UpdateOutcome::Rejected, Met(0));
    assert!(!state.rendezvous_nav.tracking_active);
    assert_eq!(state.alarm.code, ALARM_REJECT_OVERRIDE);
    assert_eq!(state.rendezvous_nav.reject_count, 5);
}

#[test]
fn p20_accepted_mark_ends_reject_run() {
    let mut state = new_state();
    p20_record_mark(&mut state, UpdateOutcome::Rejected, Met(0));
    p20_record_mark(&mut state, UpdateOutcome::Accepted, Met(500));
    assert_eq!(state.rendezvous_nav.consecutive_reject_count, 0);
    assert_eq!(state.rendezvous_nav.mark_count, 1);
    assert_eq!(state.rendezvous_nav.reject_count, 1);
    assert_eq!(state.rendezvous_nav.last_mark_time, Met(500));
}

#[test]
fn p20_overflowing_mark_rectifies_then_counts() {
    let mut state = new_state();
    state.time = Met(900);
    state.rendezvous_nav.mark_count = 9;
    state.rendezvous_nav.reject_count = 3;
    let registers = p20_record_mark(&mut state, UpdateOutcome::AcceptedWOverflow, Met(800));
    assert_eq!(registers, Some(CLEARED));
    assert_eq!(state.alarm.code, ALARM_W_OVERFLOW);
    assert_eq!(state.rendezvous_nav.mark_count, 1);
    assert_eq!(state.rendezvous_nav.reject_count, 0);
    assert_eq!(state.rendezvous_nav.last_mark_time, Met(800));
    assert_eq!(state.dsky.noun, 49);
}

#[test]
fn p20_rectify_clears_counts() {
    let mut state = new_state();
    state.time = Met(4242);
    state.rendezvous_nav.mark_count = 3;
    state.rendezvous_nav.reject_count = 2;
    assert_eq!(p20_rectify_w_matrix(&mut state), CLEARED);
    assert_eq!(state.rendezvous_nav.mark_count, 0);
    assert_eq!(state.rendezvous_nav.reject_count, 0);
    assert_eq!(state.rendezvous_nav.last_mark_time, Met(4242));
    assert_eq!(state.dsky.verb, 6);
    assert_eq!(state.dsky.noun, 49);
}

#[test]
fn p21_zero_epoch_raises_01420() {
    let mut state = new_state();
    assert_eq!(p21_init(&mut state), (P21_PRIORITY, Some(CLEARED)));
    assert_eq!(state.alarm.code, 0o1420);
    assert_eq!(state.major_mode, 21);
    assert_eq!(state.dsky.noun, 43);
    let mut ok = new_state();
    ok.csm_state = csm_leo();
    assert_eq!(p21_init(&mut ok), (P21_PRIORITY, None));
    assert_eq!(ok.alarm.code, 0);
}

#[test]
fn tc_p22_1_init_w_matrix_and_waitlist() {
    let mut state = new_state();
    state.csm_state = csm_leo();
    state.time = Met(100_000);
    let prio = p22_init(&mut state);
    assert_eq!(prio, P22_PRIORITY);
    assert_eq!(state.major_mode, P22_MAJOR_MODE);
    assert_eq!(state.dsky.prog, P22_MAJOR_MODE);
    assert!(state.csm_nav.tracking_active);
    assert_eq!(state.alarm.code, 0);
    assert_eq!(state.csm_nav.mark_count, 0);
    assert!(state.waitlist.len() >= 1);
    let entry = state.waitlist.peek(0).expect("waitlist entry 0 must exist");
    assert_eq!(entry.task, Task::P22CycleTask);
}

#[test]
fn p22_rejects_moon_frame_and_bad_landmarks() {
    let mut state = new_state();
    state.csm_state = csm_leo();
    state.csm_state.frame = Frame::MoonInertial;
    p22_init(&mut state);
    assert_eq!(state.alarm.code, 0o400);
    assert!(!state.csm_nav.tracking_active);
    assert!(state.waitlist.is_empty());

    let mut s = new_state();
    s.csm_state = csm_leo();
    p22_init(&mut s);
    assert!(!p22_check_landmark_mark(&mut s, 0, true));
    assert_eq!(s.alarm.code, 0o1424);
    assert!(!p22_check_landmark_mark(&mut s, 3, false));
    assert_eq!(s.alarm.code, 0o1425);
    assert!(p22_check_landmark_mark(&mut s, 8, true));
    for _ in 0..5 {
        p22_record_mark(&mut s, UpdateOutcome::Rejected, Met(0));
    }
    assert_eq!(s.alarm.code, 0o1422);
    assert!(!p22_check_landmark_mark(&mut s, 3, true));
}

#[test]
fn p22_cycle_shows_n43_and_requeues() {
    let mut state = new_state();
    state.csm_state = csm_leo();
    state.time = Met(100_000);
    p22_init(&mut state);
    let _ = state.waitlist.pop_task();
    state.time = Met(100_200);
    let cov = p22_cycle_task(&mut state);
    assert_eq!(cov, CovarianceUpdate::Grow { dt_cs: 200 });
    assert_eq!(state.dsky.verb, 16);
    assert_eq!(state.dsky.noun, 43);
    assert_eq!(state.waitlist.len(), 1);
}

#[test]
fn tc_p23_1_init_happy_path() {
    let mut state = new_state();
    state.csm_state = FramedStateVector {
        position: [3.84e8, 0.0, 0.0],
        velocity: [0.0, 800.0, 0.0],
        epoch: Met(100_000_000),
        frame: Frame::EarthInertial,
    };
    p23_init(&mut state);
    assert_eq!(state.major_mode, 23);
    assert_eq!(state.dsky.prog, 23);
    assert!(state.csm_nav.tracking_active);
    assert_eq!(state.csm_nav.mark_count, 0);
    assert_eq!(state.csm_nav.reject_count, 0);
    assert_eq!(state.csm_nav.consecutive_reject_count, 0);
    assert_eq!(state.alarm.code, 0);
    assert!(!state.waitlist.is_empty());
}

#[test]
fn tc_p23_2_init_zero_epoch_alarm() {
    let mut state = new_state();
    p23_init(&mut state);
    assert_eq!(state.alarm.code, 0o01420);
    assert!(state.alarm.lit);
    assert!(!state.csm_nav.tracking_active);
}

#[test]
fn tc_p23_6_primary_body_mapping() {
    assert_eq!(primary_body(Frame::EarthInertial), Body::Earth);
    assert_eq!(primary_body(Frame::MoonInertial), Body::Moon);
}

#[test]
fn p23_cycle_stops_after_program_change_and_rectify_restores_tracking() {
    let mut state = new_state();
    state.csm_state = csm_leo();
    p23_init(&mut state);
    let _ = state.waitlist.pop_task();
    state.major_mode = 0;
    assert_eq!(p23_cycle_task(&mut state), (CovarianceUpdate::Unchanged, None));
    assert!(state.waitlist.is_empty());
    state.csm_nav.tracking_active = false;
    assert_eq!(p23_rectify_w_matrix(&mut state), CLEARED);
    assert!(state.csm_nav.tracking_active);
    assert_eq!(state.dsky.noun, 49);
}

#[test]
fn p23_fifth_reject_after_an_accepted_mark_stops_tracking() {
    let mut state = new_state();
    state.csm_nav.tracking_active = true;
    p23_record_mark(&mut state, UpdateOutcome::Rejected, Met(0));
    p23_record_mark(&mut state, UpdateOutcome::Accepted, Met(100));
    assert_eq!(state.csm_nav.consecutive_reject_count, 0);
    for _ in 0..4 {
        p23_record_mark(&mut state, UpdateOutcome::Rejected, Met(200));
        assert!(state.csm_nav.tracking_active);
        assert!(!state.alarm.lit);
    }
    p23_record_mark(&mut state, UpdateOutcome::Rejected, Met(200));
    assert!(!state.csm_nav.tracking_active);
    assert_eq!(state.alarm.code, 0o1431);
}

#[test]
fn p23_last_mark_time_only_moves_forward() {
    let mut state = new_state();
    state.csm_nav.tracking_active = true;
    p23_record_mark(&mut state, UpdateOutcome::Accepted, Met(500));
    assert_eq!(state.csm_nav.last_mark_time, Met(500));
    p23_record_mark(&mut state, UpdateOutcome::Accepted, Met(300));
    assert_eq!(state.csm_nav.last_mark_time, Met(500));
    assert_eq!(state.csm_nav.mark_count, 2);
    p23_record_mark(&mut state, UpdateOutcome::Accepted, Met(700));
    assert_eq!(state.csm_nav.last_mark_time, Met(700));
}

#[test]
fn p23_mark_checks_raise_their_alarms_only_while_tracking() {
    let mut state = new_state();
    assert!(!p23_check_mark(&mut state, MarkGeometry::StarNotUnit));
    assert!(!state.alarm.lit);
    state.csm_nav.tracking_active = true;
    assert!(p23_check_mark(&mut state, MarkGeometry::Usable));
    assert!(!state.alarm.lit);
    let cases = [
        (MarkGeometry::StarNotUnit, 0o1426),
        (MarkGeometry::AngleOutOfRange, 0o1427),
        (MarkGeometry::TooCloseToBody, 0o1430),
        (MarkGeometry::LandmarkTooClose, 0o1432),
        (MarkGeometry::DegenerateGeometry, 0o1427),
    ];
    for (g, code) in cases {
        assert!(!p23_check_mark(&mut state, g));
        assert_eq!(state.alarm.code, code);
        assert!(state.csm_nav.tracking_active);
    }
}

#[test]
fn p23_grows_covariance_over_gaps_up_to_a_day() {
    let mut state = new_state();
    state.csm_state = csm_leo();
    state.time = Met(100_000);
    p23_init(&mut state);
    let _ = state.waitlist.pop_task();
    // Two hours without marks: still process noise for P23.
    state.time = Met(100_000 + 720_000);
    state.csm_nav.mark_count = 4;
    state.csm_nav.reject_count = 2;
    assert_eq!(
        p23_cycle_task(&mut state),
        (CovarianceUpdate::Grow { dt_cs: 720_000 }, Some(Registers { r1: 4, r2: 2, r3: 0 }))
    );
    assert_eq!(state.dsky.noun, 49);
    let _ = state.waitlist.pop_task();
    // More than a day: re-initialised.
    state.time = Met(100_000 + 8_640_001);
    assert_eq!(p23_cycle_task(&mut state), (CovarianceUpdate::Reinitialise, Some(CLEARED)));
    assert_eq!(state.csm_nav.last_mark_time, Met(100_000 + 8_640_001));
}

#[test]
fn p20_accepted_mark_counts_with_a_full_reject_count() {
    let mut state = new_state();
    state.rendezvous_nav.reject_count = u16::MAX;
    state.rendezvous_nav.consecutive_reject_count = u8::MAX;
    p20_record_mark(&mut state, UpdateOutcome::Accepted, Met(42));
    assert_eq!(state.rendezvous_nav.mark_count, 1);
    assert_eq!(state.rendezvous_nav.reject_count, u16::MAX);
    assert_eq!(state.rendezvous_nav.consecutive_reject_count, 0);
}

#[test]
fn p20_entry_with_a_zero_target_shows_the_reject_count() {
    let mut state = new_state();
    state.time = Met(100_000);
    state.csm_state = csm_leo();
    state.rendezvous_nav.reject_count = 3;
    assert_eq!(p20_init(&mut state, true), (P20_PRIORITY, Some(Registers { r1: 3, r2: 0, r3: 0 })));
    assert_eq!(state.dsky.verb, 6);
    assert_eq!(state.dsky.noun, 49);
    let mut mismatch = new_state();
    mismatch.csm_state = csm_leo();
    mismatch.target_state = target_leo_2km_behind();
    mismatch.target_state.frame = Frame::MoonInertial;
    assert_eq!(p20_init(&mut mismatch, false), (P20_PRIORITY, None));
}

#[test]
fn p22_and_p23_overflowing_marks_clear_the_registers() {
    let mut state = new_state();
    state.csm_nav.mark_count = 5;
    assert_eq!(p22_record_mark(&mut state, UpdateOutcome::AcceptedWOverflow, Met(10)), Some(CLEARED));
    assert_eq!(state.csm_nav.mark_count, 1);
    assert_eq!(p22_record_mark(&mut state, UpdateOutcome::Accepted, Met(20)), None);
    assert_eq!(p23_record_mark(&mut state, UpdateOutcome::AcceptedWOverflow, Met(30)), Some(CLEARED));
    assert_eq!(p23_record_mark(&mut state, UpdateOutcome::Rejected, Met(40)), None);
    assert_eq!(p20_record_mark(&mut state, UpdateOutcome::Accepted, Met(50)), None);
}

#[test]
fn p23_entry_clears_the_registers_only_when_it_starts() {
    let mut state = new_state();
    state.csm_state = csm_leo();
    assert_eq!(p23_init(&mut state), (P23_PRIORITY, Some(CLEARED)));
    let mut unset = new_state();
    assert_eq!(p23_init(&mut unset).1, None);
}

#[test]
fn tc_p22_7_rectify_resets_counters_not_tracking() {
    let mut state = new_state();
    state.csm_state = FramedStateVector {
        position: [7_000_000.0, 0.0, 0.0],
        velocity: [0.0, 7500.0, 0.0],
        epoch: Met(0),
        frame: Frame::EarthInertial,
    };
    let _ = p22_init(&mut state);
    state.time = Met(0);
    for _ in 0..5 {
        // With tracking off every mark is dropped before its update.
        assert!(!p22_check_landmark_mark(&mut state, 1, true));
    }
    assert!(!state.csm_nav.tracking_active);
    state.time = Met(1_000);
    assert_eq!(p22_rectify_w_matrix(&mut state), CLEARED);
    assert_eq!(state.csm_nav.mark_count, 0);
    assert_eq!(state.csm_nav.reject_count, 0);
    assert_eq!(state.csm_nav.consecutive_reject_count, 0);
    assert_eq!(state.csm_nav.last_mark_time, state.time);
    assert!(!state.csm_nav.tracking_active);
}
