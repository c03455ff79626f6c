use agc_core::executive::Task;
use agc_core::programs::p01_p02::{
    drive_toward_zero, init_p01, init_p02, p02_gyrocompass_step, ALARM_GYROCOMPASS_WRONG_STATE,
    COARSE_ALIGN_THRESHOLD, GYROCOMPASS_DRIVE_COUNTS, GYROCOMPASS_PERIOD_CS, P01_MAJOR_MODE,
    P02_MAJOR_MODE, PRIORITY,
};
use agc_core::state::{AgcState, ImuAlignmentState};
use agc_core::types::{CduAngle, Met};

fn new_state() -> AgcState<(), [f64; 3]> {
    AgcState::new((), [0.0; 3])
}

/// Per-axis gyrocompass drive at launch latitude `lat_rad`: the Earth-rate
/// horizontal component drives pitch (and half of it roll), the vertical
/// component drives yaw.
fn drives(lat_rad: f64) -> [i16; 3] {
    let c = libm::cos(lat_rad);
    let s = libm::sin(lat_rad);
    let d = GYROCOMPASS_DRIVE_COUNTS as f64;
    [(d * c * 0.5) as i16, (d * c) as i16, (d * s) as i16]
}

fn set_cdu_all(state: &mut AgcState<(), [f64; 3]>, counts: i16) {
    for c in state.current_cdu.iter_mut() {
        c.0 = counts;
    }
}

fn drain_gyrocompass(state: &mut AgcState<(), [f64; 3]>, lat: f64, max_steps: usize) -> usize {
    let mut steps = 0;
    while state.imu_alignment_state != ImuAlignmentState::CoarseAligned && steps < max_steps {
        let Some((task, _)) = state.waitlist.pop_task() else { break };
        assert_eq!(task, Task::P02GyrocompassStep);
        p02_gyrocompass_step(state, drives(lat));
        steps += 1;
    }
    steps
}

#[test]
fn tc_p01_1_sets_caged() {
    let mut state = new_state();
    state.imu_alignment_state = ImuAlignmentState::FineAligned;
    let prio = init_p01(&mut state);
    assert_eq!(prio, PRIORITY);
    assert_eq!(state.major_mode, P01_MAJOR_MODE);
    assert_eq!(state.dsky.prog, P01_MAJOR_MODE);
    assert_eq!(state.imu_alignment_state, ImuAlignmentState::Caged);
    assert_eq!(state.alarm.code(), 0);
}

#[test]
fn tc_p01_2_forces_cage_from_coarse() {
    let mut state = new_state();
    state.imu_alignment_state = ImuAlignmentState::CoarseAligned;
    init_p01(&mut state);
    assert_eq!(state.imu_alignment_state, ImuAlignmentState::Caged);
}

#[test]
fn tc_p02_1_from_caged_schedules_loop() {
    let mut state = new_state();
    state.imu_alignment_state = ImuAlignmentState::Caged;
    init_p02(&mut state);
    assert_eq!(state.major_mode, P02_MAJOR_MODE);
    assert_eq!(state.imu_alignment_state, ImuAlignmentState::Caged);
    assert_eq!(state.alarm.code(), 0);
    assert!(state.waitlist.front_delta().is_some(), "Waitlist must have a pending gyrocompass step");
}

#[test]
fn tc_p02_2_from_fine_aligned_alarm() {
    let mut state = new_state();
    state.imu_alignment_state = ImuAlignmentState::FineAligned;
    init_p02(&mut state);
    assert_eq!(state.alarm.code(), ALARM_GYROCOMPASS_WRONG_STATE);
    assert!(state.alarm.lit);
    assert_eq!(state.major_mode, P02_MAJOR_MODE);
}

#[test]
fn tc_p02_3_convergence_from_30_degree_misalignment() {
    let mut state = new_state();
    state.imu_alignment_state = ImuAlignmentState::Caged;
    let lat = 0.4986;
    let counts_30deg: i16 = (30.0_f64 / 360.0 * 65536.0).round() as i16;
    set_cdu_all(&mut state, counts_30deg);
    init_p02(&mut state);
    let steps = drain_gyrocompass(&mut state, lat, 200);
    assert_eq!(state.imu_alignment_state, ImuAlignmentState::CoarseAligned, "took {steps}");
    for c in state.current_cdu.iter() {
        assert!(c.0.unsigned_abs() <= COARSE_ALIGN_THRESHOLD);
    }
}

#[test]
fn tc_p02_4_already_aligned_single_step() {
    let mut state = new_state();
    state.imu_alignment_state = ImuAlignmentState::Caged;
    init_p02(&mut state);
    let steps = drain_gyrocompass(&mut state, 0.0, 5);
    assert_eq!(state.imu_alignment_state, ImuAlignmentState::CoarseAligned);
    assert_eq!(steps, 1);
}

#[test]
fn tc_p02_5_stops_on_program_change() {
    let mut state = new_state();
    state.imu_alignment_state = ImuAlignmentState::Caged;
    set_cdu_all(&mut state, 5000);
    init_p02(&mut state);
    state.major_mode = 0;
    state.time = Met(GYROCOMPASS_PERIOD_CS as u32);
    if let Some((task, _)) = state.waitlist.pop_task() {
        assert_eq!(task, Task::P02GyrocompassStep);
        p02_gyrocompass_step(&mut state, drives(0.0));
    }
    assert!(state.waitlist.front_delta().is_none());
    assert_ne!(state.imu_alignment_state, ImuAlignmentState::CoarseAligned);
}

#[test]
fn drive_toward_zero_snaps_and_never_overshoots() {
    assert_eq!(drive_toward_zero(CduAngle(100), 30), CduAngle(70));
    assert_eq!(drive_toward_zero(CduAngle(20), 30), CduAngle(0));
    assert_eq!(drive_toward_zero(CduAngle(-100), 30), CduAngle(-70));
    assert_eq!(drive_toward_zero(CduAngle(-20), 30), CduAngle(0));
    assert_eq!(drive_toward_zero(CduAngle(100), 0), CduAngle(100));
    assert_eq!(drive_toward_zero(CduAngle(100), -5), CduAngle(100));
    assert_eq!(drive_toward_zero(CduAngle(i16::MIN), i16::MAX), CduAngle(-1));
}

#[test]
fn gyrocompass_step_reschedules_until_converged() {
    let mut state = new_state();
    set_cdu_all(&mut state, 1000);
    init_p02(&mut state);
    let _ = state.waitlist.pop_task();
    p02_gyrocompass_step(&mut state, [100, 100, 100]);
    assert_eq!(state.current_cdu, [CduAngle(900), CduAngle(900), CduAngle(900)]);
    assert_eq!(state.waitlist.len(), 1);
    assert_eq!(state.waitlist.front_delta(), Some(GYROCOMPASS_PERIOD_CS));
    assert_eq!(state.imu_alignment_state, ImuAlignmentState::Caged);
}
