//! P01 — Pre-launch IMU initialisation; P02 — Gyrocompassing.
//!
//! P01 cages the platform.  P02 runs a Waitlist loop that drives the three
//! CDU angles toward zero by a per-axis amount each period until all three
//! are within the coarse-align threshold, then declares the platform
//! coarse-aligned.  The per-axis drive amounts follow from the launch
//! latitude (Earth-rate components) and are handed in as counts.
use vstd::prelude::*;
use crate::executive::{schedule_effect, Task};
use crate::state::{AgcState, AlarmState, Dsky, ImuAlignmentState};
use crate::types::{CduAngle, JobPriority};

verus! {

/// Major mode of P01.
pub const P01_MAJOR_MODE: u8 = 1;
/// Major mode of P02.
pub const P02_MAJOR_MODE: u8 = 2;
/// Job priority of P01 and P02.
pub const PRIORITY: JobPriority = 3;
/// Verb shown by P01/P02 (display).
pub const VERB_DISPLAY: u8 = 6;
/// Noun shown by P01/P02 (pre-launch data).
pub const NOUN_PRELAUNCH: u8 = 68;
/// Alarm: P02 started with the platform not caged.
pub const ALARM_GYROCOMPASS_WRONG_STATE: u16 = 235;
/// Gyrocompass loop period, centiseconds.
pub const GYROCOMPASS_PERIOD_CS: u16 = 500;
/// Nominal gyrocompass drive, CDU counts per period.
pub const GYROCOMPASS_DRIVE_COUNTS: i16 = 330;
/// A CDU angle within this many counts of zero counts as coarse-aligned.
pub const COARSE_ALIGN_THRESHOLD: u16 = 182;

/// The state after P01 entry.
pub open spec fn init_p01_post<N, V>(s: AgcState<N, V>) -> AgcState<N, V> {
    AgcState {
        major_mode: P01_MAJOR_MODE,
        dsky: Dsky { prog: P01_MAJOR_MODE, verb: VERB_DISPLAY, noun: NOUN_PRELAUNCH, flashing: false, ..s.dsky },
        imu_alignment_state: ImuAlignmentState::Caged,
        ..s
    }
}

/// P01 entry: select P01, show V06 N68 and cage the platform whatever its
/// prior state.
pub fn init_p01<N, V>(state: &mut AgcState<N, V>) -> (p: JobPriority)
    ensures
        p == PRIORITY,
        *final(state) == init_p01_post(*old(state)),
{
    state.major_mode = P01_MAJOR_MODE;
    state.dsky.prog = P01_MAJOR_MODE;
    state.dsky.verb = VERB_DISPLAY;
    state.dsky.noun = NOUN_PRELAUNCH;
    state.dsky.flashing = false;
    state.imu_alignment_state = ImuAlignmentState::Caged;
    PRIORITY
}

/// The state after P02 entry, except for the Waitlist: alarm 235 if the
/// platform was not caged (P02 still starts), P02 selected, V06 N68 shown.
pub open spec fn init_p02_post<N, V>(s: AgcState<N, V>) -> AgcState<N, V> {
    AgcState {
        alarm: if s.imu_alignment_state != ImuAlignmentState::Caged {
            AlarmState { code: ALARM_GYROCOMPASS_WRONG_STATE, lit: true }
        } else {
            s.alarm
        },
        major_mode: P02_MAJOR_MODE,
        dsky: Dsky { prog: P02_MAJOR_MODE, verb: VERB_DISPLAY, noun: NOUN_PRELAUNCH, flashing: false, ..s.dsky },
        ..s
    }
}

/// P02 entry: start gyrocompassing and queue the first loop step after
/// one period.
pub fn init_p02<N, V>(state: &mut AgcState<N, V>) -> (p: JobPriority)
    ensures
        p == PRIORITY,
        *final(state) == (AgcState { waitlist: final(state).waitlist, ..init_p02_post(*old(state)) }),
        schedule_effect(old(state).waitlist@, GYROCOMPASS_PERIOD_CS, Task::P02GyrocompassStep, final(state).waitlist@),
{
    if state.imu_alignment_state != ImuAlignmentState::Caged {
        state.alarm.raise(ALARM_GYROCOMPASS_WRONG_STATE);
    }
    state.major_mode = P02_MAJOR_MODE;
    state.dsky.prog = P02_MAJOR_MODE;
    state.dsky.verb = VERB_DISPLAY;
    state.dsky.noun = NOUN_PRELAUNCH;
    state.dsky.flashing = false;
    let _ = state.waitlist.schedule(GYROCOMPASS_PERIOD_CS, Task::P02GyrocompassStep);
    PRIORITY
}

/// `v` moved toward zero by `delta` counts, stopping at zero; unchanged
/// when `delta` is not positive.
pub open spec fn drive_toward_zero_spec(v: i16, delta: i16) -> i16 {
    if delta <= 0 {
        v
    } else if v > 0 {
        if v - delta > 0 { (v - delta) as i16 } else { 0 }
    } else if v < 0 {
        if v + delta < 0 { (v + delta) as i16 } else { 0 }
    } else {
        0
    }
}

/// Drive a CDU angle toward zero by `delta` counts without passing zero.
pub fn drive_toward_zero(cdu: CduAngle, delta: i16) -> (r: CduAngle)
    ensures
        r.0 == drive_toward_zero_spec(cdu.0, delta),
{
    if delta <= 0 {
        return cdu;
    }
    let v = cdu.0;
    if v > 0 {
        if v - delta > 0 { CduAngle(v - delta) } else { CduAngle(0) }
    } else if v < 0 {
        if v + delta < 0 { CduAngle(v + delta) } else { CduAngle(0) }
    } else {
        CduAngle(0)
    }
}

/// Magnitude of a CDU count.
pub open spec fn cdu_abs(v: i16) -> int {
    if v < 0 { -(v as int) } else { v as int }
}

/// All three CDU angles are within the coarse-align threshold.
pub open spec fn coarse_converged(c: [CduAngle; 3]) -> bool {
    cdu_abs(c[0].0) <= COARSE_ALIGN_THRESHOLD && cdu_abs(c[1].0) <= COARSE_ALIGN_THRESHOLD
        && cdu_abs(c[2].0) <= COARSE_ALIGN_THRESHOLD
}

/// Whether one CDU angle is within the coarse-align threshold.
fn within_coarse_threshold(v: i16) -> (b: bool)
    ensures
        b == (cdu_abs(v) <= COARSE_ALIGN_THRESHOLD),
{
    let t = COARSE_ALIGN_THRESHOLD as i32;
    let w = v as i32;
    -t <= w && w <= t
}

/// The CDU angles after one gyrocompass step with per-axis drives `d`.
pub open spec fn driven_cdus(c: [CduAngle; 3], d: [i16; 3]) -> [CduAngle; 3] {
    [
        CduAngle(drive_toward_zero_spec(c[0].0, d[0])),
        CduAngle(drive_toward_zero_spec(c[1].0, d[1])),
        CduAngle(drive_toward_zero_spec(c[2].0, d[2])),
    ]
}

/// The state after one gyrocompass step, except for the Waitlist.
pub open spec fn gyrocompass_step_post<N, V>(s: AgcState<N, V>, d: [i16; 3]) -> AgcState<N, V> {
    if s.major_mode != P02_MAJOR_MODE {
        s
    } else {
        let c = driven_cdus(s.current_cdu, d);
        AgcState {
            current_cdu: c,
            imu_alignment_state: if coarse_converged(c) {
                ImuAlignmentState::CoarseAligned
            } else {
                s.imu_alignment_state
            },
            ..s
        }
    }
}

/// One gyrocompass iteration with per-axis drive amounts `drive`
/// (inner, middle, outer; CDU counts per period).
///
/// Does nothing once another program has replaced P02.  Otherwise drives
/// each CDU angle toward zero; when all three are within the threshold the
/// platform becomes coarse-aligned and the loop ends, else the next step is
/// queued one period later.
pub fn p02_gyrocompass_step<N, V>(state: &mut AgcState<N, V>, drive: [i16; 3])
    ensures
        *final(state) == (AgcState { waitlist: final(state).waitlist, ..gyrocompass_step_post(*old(state), drive) }),
        old(state).major_mode == P02_MAJOR_MODE && !coarse_converged(driven_cdus(old(state).current_cdu, drive))
            ==> schedule_effect(old(state).waitlist@, GYROCOMPASS_PERIOD_CS, Task::P02GyrocompassStep, final(state).waitlist@),
        old(state).major_mode != P02_MAJOR_MODE || coarse_converged(driven_cdus(old(state).current_cdu, drive))
            ==> final(state).waitlist@ == old(state).waitlist@,
{
    if state.major_mode != P02_MAJOR_MODE {
        return;
    }
    let c0 = drive_toward_zero(state.current_cdu[0], drive[0]);
    let c1 = drive_toward_zero(state.current_cdu[1], drive[1]);
    let c2 = drive_toward_zero(state.current_cdu[2], drive[2]);
    state.current_cdu = [c0, c1, c2];
    let converged = within_coarse_threshold(c0.0) && within_coarse_threshold(c1.0)
        && within_coarse_threshold(c2.0);
    if converged {
        state.imu_alignment_state = ImuAlignmentState::CoarseAligned;
    } else {
        let _ = state.waitlist.schedule(GYROCOMPASS_PERIOD_CS, Task::P02GyrocompassStep);
    }
}

/// A gyrocompass drive never moves a CDU angle away from zero and never
/// across it.
pub proof fn lemma_drive_never_overshoots(v: i16, delta: i16)
    ensures
        cdu_abs(drive_toward_zero_spec(v, delta)) <= cdu_abs(v),
        v >= 0 ==> drive_toward_zero_spec(v, delta) >= 0,
        v <= 0 ==> drive_toward_zero_spec(v, delta) <= 0,
        delta > 0 && v != 0 ==> cdu_abs(drive_toward_zero_spec(v, delta)) < cdu_abs(v),
{
}

/// The gyrocompass loop run for at most `k` steps with per-axis drives `d`:
/// it stops early once a step has coarse-aligned the platform (no further
/// step is queued then).
pub open spec fn gyrocompass_run<N, V>(s: AgcState<N, V>, d: [i16; 3], k: nat) -> AgcState<N, V>
    decreases k,
{
    if k == 0 || s.imu_alignment_state == ImuAlignmentState::CoarseAligned {
        s
    } else {
        gyrocompass_run(gyrocompass_step_post(s, d), d, (k - 1) as nat)
    }
}

/// Gyrocompassing converges: started in P02 with the platform caged and a
/// positive drive on every axis, the loop has coarse-aligned the platform
/// after `k` steps whenever `k` steps of drive cover each axis's initial
/// offset from zero.
pub proof fn lemma_gyrocompass_converges<N, V>(s: AgcState<N, V>, d: [i16; 3], k: nat)
    requires
        s.major_mode == P02_MAJOR_MODE,
        s.imu_alignment_state == ImuAlignmentState::Caged,
        d[0] > 0 && d[1] > 0 && d[2] > 0,
        k >= 1,
        k * d[0] >= cdu_abs(s.current_cdu[0].0),
        k * d[1] >= cdu_abs(s.current_cdu[1].0),
        k * d[2] >= cdu_abs(s.current_cdu[2].0),
    ensures
        gyrocompass_run(s, d, k).imu_alignment_state == ImuAlignmentState::CoarseAligned,
        gyrocompass_run(s, d, k).major_mode == P02_MAJOR_MODE,
    decreases k,
{
    let s1 = gyrocompass_step_post(s, d);
    let c = s.current_cdu;
    let c1 = s1.current_cdu;
    assert(s1.major_mode == P02_MAJOR_MODE);
    if coarse_converged(c1) {
        assert(s1.imu_alignment_state == ImuAlignmentState::CoarseAligned);
        if k >= 2 {
            assert(gyrocompass_run(s1, d, (k - 1) as nat) == s1);
        }
        assert(gyrocompass_run(s, d, k) == gyrocompass_run(s1, d, (k - 1) as nat));
    } else {
        assert(s1.imu_alignment_state == ImuAlignmentState::Caged);
        assert forall|i: int| 0 <= i < 3 implies (k - 1) * d[i] >= cdu_abs(c1[i].0) by {
            lemma_drive_step_bound(c[i].0, d[i], k);
        }
        if k == 1 {
            assert forall|i: int| 0 <= i < 3 implies cdu_abs(c1[i].0) == 0 by {
                lemma_drive_step_bound(c[i].0, d[i], k);
            }
            assert(false);
        }
        lemma_gyrocompass_converges(s1, d, (k - 1) as nat);
    }
}

/// One drive step of `delta > 0` on an offset covered by `k` steps leaves an
/// offset covered by `k - 1` steps (none at all when `k` is one).
proof fn lemma_drive_step_bound(v: i16, delta: i16, k: nat)
    requires
        delta > 0,
        k >= 1,
        k * delta >= cdu_abs(v),
    ensures
        (k - 1) * delta >= cdu_abs(drive_toward_zero_spec(v, delta)),
        k == 1 ==> cdu_abs(drive_toward_zero_spec(v, delta)) == 0,
{
    assert((k - 1) * delta == k * delta - delta) by (nonlinear_arith);
    if k == 1 {
        assert(k * delta == delta) by (nonlinear_arith) requires k == 1;
    }
    assert((k - 1) * delta >= 0) by (nonlinear_arith) requires k >= 1, delta > 0;
}

/// A gyrocompass step in P02 declares the platform coarse-aligned only when
/// each of the three driven CDU angles (inner, middle and outer) is within
/// 182 counts of zero; while any one is farther out the alignment state is
/// unchanged.
pub proof fn lemma_coarse_alignment_needs_every_axis<N, V>(s: AgcState<N, V>, d: [i16; 3], c: [CduAngle; 3])
    requires
        s.major_mode == P02_MAJOR_MODE,
    ensures
        coarse_converged(c) <==> forall|i: int| 0 <= i < 3 ==> -182 <= #[trigger] c[i].0 <= 182,
        gyrocompass_step_post(s, d).current_cdu == driven_cdus(s.current_cdu, d),
        (forall|i: int| 0 <= i < 3 ==> -182 <= #[trigger] gyrocompass_step_post(s, d).current_cdu[i].0 <= 182)
            ==> gyrocompass_step_post(s, d).imu_alignment_state == ImuAlignmentState::CoarseAligned,
        (exists|i: int| 0 <= i < 3 && !(-182 <= #[trigger] gyrocompass_step_post(s, d).current_cdu[i].0 <= 182))
            ==> gyrocompass_step_post(s, d).imu_alignment_state == s.imu_alignment_state,
{
    assert(coarse_converged(c) <==> (forall|i: int| 0 <= i < 3 ==> -182 <= #[trigger] c[i].0 <= 182)) by {
        if forall|i: int| 0 <= i < 3 ==> -182 <= #[trigger] c[i].0 <= 182 {
            assert(-182 <= c[0].0 <= 182);
            assert(-182 <= c[1].0 <= 182);
            assert(-182 <= c[2].0 <= 182);
        }
    }
    let after = gyrocompass_step_post(s, d);
    let e = driven_cdus(s.current_cdu, d);
    assert(after.current_cdu == e);
    if forall|i: int| 0 <= i < 3 ==> -182 <= #[trigger] after.current_cdu[i].0 <= 182 {
        assert(-182 <= after.current_cdu[0].0 <= 182);
        assert(-182 <= after.current_cdu[1].0 <= 182);
        assert(-182 <= after.current_cdu[2].0 <= 182);
        assert(coarse_converged(e));
    }
    if exists|i: int| 0 <= i < 3 && !(-182 <= #[trigger] after.current_cdu[i].0 <= 182) {
        let i = choose|i: int| 0 <= i < 3 && !(-182 <= #[trigger] after.current_cdu[i].0 <= 182);
        assert(i == 0 || i == 1 || i == 2);
        assert(!coarse_converged(e));
    }
}

} // verus!
