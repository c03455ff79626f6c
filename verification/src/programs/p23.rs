//! P23 — Cislunar midcourse navigation: entry, the 10-second cycle,
//! W-matrix rectification, primary-body selection and mark bookkeeping.
use vstd::prelude::*;
use crate::executive::{schedule_effect, Task};
use crate::navigation::kalman::{
    accepted_forward_post, covariance_update, covariance_update_for, record_accepted_forward,
    record_rejected, rejected_post, CovarianceUpdate, UpdateOutcome, CONSECUTIVE_REJECT_LIMIT,
    counts_short_rejects, lemma_short_reject_run, reject_run,
};
use crate::display::{cleared_registers, Registers};
use crate::state::{schedule_alarm_post, schedule_or_alarm, with_alarm, AgcState, Dsky, NavFilterState};
use crate::types::{Frame, JobPriority, Met};

verus! {

/// Major mode of P23.
pub const P23_MAJOR_MODE: u8 = 23;
/// Job priority of P23.
pub const P23_PRIORITY: JobPriority = 8;
/// Cycle period, centiseconds.
pub const P23_CYCLE_CS: u16 = 1000;
/// Longest gap between marks over which P23 adds process noise; beyond it
/// the covariance is re-initialised instead (24 h).
pub const P23_MAX_PROCESS_NOISE_DT_CS: u32 = 8_640_000;
/// Alarm 01420: no valid CSM state vector.
pub const ALARM_NO_CSM_SV: u16 = 0o1420;
/// Alarm 00400: CSM state in the stable-member frame.
pub const ALARM_FRAME_MISMATCH: u16 = 0o400;
/// Alarm 01421: W-matrix lost positive definiteness.
pub const ALARM_W_OVERFLOW: u16 = 0o1421;
/// Alarm 01431: five consecutive marks rejected.
pub const ALARM_P23_REJECT_OVERRIDE: u16 = 0o1431;
/// Alarm 01426: the star direction is not a unit vector (no star lock).
pub const ALARM_NO_STAR_LOCK: u16 = 0o1426;
/// Alarm 01427: observed angle outside [0, π], or unobservable geometry.
pub const ALARM_BAD_ANGLE: u16 = 0o1427;
/// Alarm 01430: the CSM is too close to the reference body.
pub const ALARM_P23_TOO_CLOSE_TO_BODY: u16 = 0o1430;
/// Alarm 01432: the CSM is too close to the sighted landmark.
pub const ALARM_P23_LANDMARK_RANGE_ZERO: u16 = 0o1432;

/// The first defect the geometric checks of a P23 mark found, in the order
/// they are made: star direction, observed angle, then the prediction of
/// the measurement.
#[derive(Clone, Copy, Debug, PartialEq, Eq, Structural)]
pub enum MarkGeometry {
    /// All checks passed; the mark can be incorporated.
    Usable,
    /// The star direction is not a unit vector.
    StarNotUnit,
    /// The observed angle is outside [0, π].
    AngleOutOfRange,
    /// The CSM is inside the body's minimum horizon altitude.
    TooCloseToBody,
    /// The CSM is too close to the landmark.
    LandmarkTooClose,
    /// The star is collinear with the body or landmark direction.
    DegenerateGeometry,
}

/// The alarm for a mark with geometry `g`, if any.
pub open spec fn mark_geometry_alarm(g: MarkGeometry) -> Option<u16> {
    match g {
        MarkGeometry::Usable => None,
        MarkGeometry::StarNotUnit => Some(ALARM_NO_STAR_LOCK),
        MarkGeometry::AngleOutOfRange => Some(ALARM_BAD_ANGLE),
        MarkGeometry::TooCloseToBody => Some(ALARM_P23_TOO_CLOSE_TO_BODY),
        MarkGeometry::LandmarkTooClose => Some(ALARM_P23_LANDMARK_RANGE_ZERO),
        MarkGeometry::DegenerateGeometry => Some(ALARM_BAD_ANGLE),
    }
}

/// The body whose horizon or surface is the sighting reference.
#[derive(Clone, Copy, Debug, PartialEq, Eq, Structural)]
pub enum Body {
    /// The Earth.
    Earth,
    /// The Moon.
    Moon,
}

/// `s` with the CSM filter's tracking turned off.
pub open spec fn tracking_off<N, V>(s: AgcState<N, V>) -> AgcState<N, V> {
    AgcState { csm_nav: NavFilterState { tracking_active: false, ..s.csm_nav }, ..s }
}

/// P23 entry succeeds from `s`.
pub open spec fn p23_init_starts<N, V>(s: AgcState<N, V>) -> bool {
    s.csm_state.frame != Frame::StableMember && s.csm_state.epoch.0 != 0
}

/// The state after P23 entry, except for the Waitlist.
pub open spec fn p23_init_post<N, V>(s: AgcState<N, V>) -> AgcState<N, V> {
    if s.csm_state.frame == Frame::StableMember {
        with_alarm(tracking_off(s), ALARM_FRAME_MISMATCH)
    } else if s.csm_state.epoch.0 == 0 {
        with_alarm(tracking_off(s), ALARM_NO_CSM_SV)
    } else {
        schedule_alarm_post(
            AgcState {
                major_mode: P23_MAJOR_MODE,
                csm_nav: NavFilterState {
                    last_mark_time: s.time,
                    mark_count: 0,
                    reject_count: 0,
                    consecutive_reject_count: 0,
                    tracking_active: true,
                    ..s.csm_nav
                },
                dsky: Dsky { prog: P23_MAJOR_MODE, verb: 16, noun: 49, ..s.dsky },
                ..s
            },
        )
    }
}

/// The registers P23 entry writes: cleared when it starts, none after an
/// alarm.
pub open spec fn p23_init_registers<N, V>(s: AgcState<N, V>) -> Option<Registers> {
    if p23_init_starts(s) { Some(cleared_registers()) } else { None }
}

/// P23 entry (table shim).
pub fn init_p23<N, V>(state: &mut AgcState<N, V>) -> (p: (JobPriority, Option<Registers>))
    ensures
        p == (P23_PRIORITY, p23_init_registers(*old(state))),
        *final(state) == (AgcState { waitlist: final(state).waitlist, ..p23_init_post(*old(state)) }),
        p23_init_starts(*old(state))
            ==> schedule_effect(old(state).waitlist@, P23_CYCLE_CS, Task::P23CycleTask, final(state).waitlist@),
        !p23_init_starts(*old(state)) ==> final(state).waitlist@ == old(state).waitlist@,
{
    p23_init(state)
}

/// P23 entry.  A CSM state in the stable-member frame (alarm 00400) or at
/// epoch zero (alarm 01420) stops tracking and leaves the major mode as it
/// was.  Otherwise P23 is selected, the CSM filter counters are reset with
/// tracking on, V16 N49 is shown with cleared registers and the 10-second
/// cycle is queued (alarm 1211 if the Waitlist is full).  The caller
/// initialises the W-matrix to the P23 diagonal only if it is all zero (a
/// covariance left by P22 is kept).  Returns the priority and the registers
/// written.
pub fn p23_init<N, V>(state: &mut AgcState<N, V>) -> (p: (JobPriority, Option<Registers>))
    ensures
        p == (P23_PRIORITY, p23_init_registers(*old(state))),
        *final(state) == (AgcState { waitlist: final(state).waitlist, ..p23_init_post(*old(state)) }),
        p23_init_starts(*old(state))
            ==> schedule_effect(old(state).waitlist@, P23_CYCLE_CS, Task::P23CycleTask, final(state).waitlist@),
        !p23_init_starts(*old(state)) ==> final(state).waitlist@ == old(state).waitlist@,
{
    if state.csm_state.frame == Frame::StableMember {
        state.alarm.raise(ALARM_FRAME_MISMATCH);
        state.csm_nav.tracking_active = false;
        return (P23_PRIORITY, None);
    }
    if state.csm_state.epoch.0 == 0 {
        state.alarm.raise(ALARM_NO_CSM_SV);
        state.csm_nav.tracking_active = false;
        return (P23_PRIORITY, None);
    }
    state.major_mode = P23_MAJOR_MODE;
    state.dsky.prog = P23_MAJOR_MODE;
    state.csm_nav.last_mark_time = state.time;
    state.csm_nav.mark_count = 0;
    state.csm_nav.reject_count = 0;
    state.csm_nav.consecutive_reject_count = 0;
    state.csm_nav.tracking_active = true;
    state.dsky.verb = 16;
    state.dsky.noun = 49;
    schedule_or_alarm(state, P23_CYCLE_CS, Task::P23CycleTask);
    (P23_PRIORITY, Some(Registers { r1: 0, r2: 0, r3: 0 }))
}

/// The state after a P23 W-matrix rectification.
pub open spec fn p23_rectify_post<N, V>(s: AgcState<N, V>) -> AgcState<N, V> {
    AgcState {
        csm_nav: NavFilterState {
            mark_count: 0,
            reject_count: 0,
            consecutive_reject_count: 0,
            last_mark_time: s.time,
            tracking_active: true,
            ..s.csm_nav
        },
        dsky: Dsky { verb: 6, noun: 49, ..s.dsky },
        ..s
    }
}

/// Rectify the P23 W-matrix: clear all counters, restart the process-noise
/// clock, turn tracking on and show V06 N49 with cleared registers
/// (returned).  The caller resets the matrix to the P23 diagonal.
pub fn p23_rectify_w_matrix<N, V>(state: &mut AgcState<N, V>) -> (r: Registers)
    ensures
        *final(state) == p23_rectify_post(*old(state)),
        r == cleared_registers(),
{
    state.csm_nav.mark_count = 0;
    state.csm_nav.reject_count = 0;
    state.csm_nav.consecutive_reject_count = 0;
    state.csm_nav.last_mark_time = state.time;
    state.csm_nav.tracking_active = true;
    state.dsky.verb = 6;
    state.dsky.noun = 49;
    Registers { r1: 0, r2: 0, r3: 0 }
}

/// The state after one P23 cycle, except for the Waitlist.
pub open spec fn p23_cycle_post<N, V>(s: AgcState<N, V>) -> AgcState<N, V> {
    if s.major_mode != P23_MAJOR_MODE {
        s
    } else if s.csm_state.frame == Frame::StableMember {
        schedule_alarm_post(with_alarm(tracking_off(s), ALARM_FRAME_MISMATCH))
    } else {
        let s1 = if covariance_update_for(s.time, s.csm_nav.last_mark_time, P23_MAX_PROCESS_NOISE_DT_CS) == CovarianceUpdate::Reinitialise {
            p23_rectify_post(s)
        } else {
            s
        };
        schedule_alarm_post(AgcState { dsky: Dsky { verb: 16, noun: 49, ..s1.dsky }, ..s1 })
    }
}

/// The covariance action of a P23 cycle from `s`.
pub open spec fn p23_cycle_covariance<N, V>(s: AgcState<N, V>) -> CovarianceUpdate {
    if s.major_mode != P23_MAJOR_MODE || s.csm_state.frame == Frame::StableMember {
        CovarianceUpdate::Unchanged
    } else {
        covariance_update_for(s.time, s.csm_nav.last_mark_time, P23_MAX_PROCESS_NOISE_DT_CS)
    }
}

/// The registers a P23 cycle from `s` writes: with P23 active and the CSM
/// state in an inertial frame, R1 the mark count and R2 the reject count
/// after the cycle's rectification, if any, and R3 zero; otherwise none.
pub open spec fn p23_cycle_registers<N, V>(s: AgcState<N, V>) -> Option<Registers> {
    if s.major_mode != P23_MAJOR_MODE || s.csm_state.frame == Frame::StableMember {
        None
    } else if p23_cycle_covariance(s) == CovarianceUpdate::Reinitialise {
        Some(cleared_registers())
    } else {
        Some(Registers { r1: s.csm_nav.mark_count as i32, r2: s.csm_nav.reject_count as i32, r3: 0 })
    }
}

fn p23_cycle_normal<N, V>(state: &mut AgcState<N, V>) -> (r: (CovarianceUpdate, Option<Registers>))
    requires
        old(state).major_mode == P23_MAJOR_MODE,
        old(state).csm_state.frame != Frame::StableMember,
    ensures
        *final(state) == (AgcState { waitlist: final(state).waitlist, ..p23_cycle_post(*old(state)) }),
        r == (p23_cycle_covariance(*old(state)), p23_cycle_registers(*old(state))),
        schedule_effect(old(state).waitlist@, P23_CYCLE_CS, Task::P23CycleTask, final(state).waitlist@),
{
    let cov = covariance_update(state.time, state.csm_nav.last_mark_time, P23_MAX_PROCESS_NOISE_DT_CS);
    if cov == CovarianceUpdate::Reinitialise {
        let _ = p23_rectify_w_matrix(state);
    }
    state.dsky.verb = 16;
    state.dsky.noun = 49;
    let marks: i32 = state.csm_nav.mark_count as i32;
    let rejects: i32 = state.csm_nav.reject_count as i32;
    schedule_or_alarm(state, P23_CYCLE_CS, Task::P23CycleTask);
    (cov, Some(Registers { r1: marks, r2: rejects, r3: 0 }))
}

/// One P23 cycle.  Once another program has replaced P23 the cycle ends
/// without re-queuing.  With the CSM state in the stable-member frame:
/// alarm 00400 and tracking off.  Otherwise the covariance action is
/// decided (a rectification after more than a day without marks) and
/// V16 N49 shows the mark and reject counts in R1 and R2 (R3 zero).
/// Re-queued every time while P23 is the major mode.  Returns the
/// covariance action and the registers written.
pub fn p23_cycle_task<N, V>(state: &mut AgcState<N, V>) -> (r: (CovarianceUpdate, Option<Registers>))
    ensures
        *final(state) == (AgcState { waitlist: final(state).waitlist, ..p23_cycle_post(*old(state)) }),
        r == (p23_cycle_covariance(*old(state)), p23_cycle_registers(*old(state))),
        old(state).major_mode == P23_MAJOR_MODE
            ==> schedule_effect(old(state).waitlist@, P23_CYCLE_CS, Task::P23CycleTask, final(state).waitlist@),
        old(state).major_mode != P23_MAJOR_MODE ==> final(state).waitlist@ == old(state).waitlist@,
{
    if state.major_mode != P23_MAJOR_MODE {
        return (CovarianceUpdate::Unchanged, None);
    }
    if state.csm_state.frame == Frame::StableMember {
        state.alarm.raise(ALARM_FRAME_MISMATCH);
        state.csm_nav.tracking_active = false;
        schedule_or_alarm(state, P23_CYCLE_CS, Task::P23CycleTask);
        return (CovarianceUpdate::Unchanged, None);
    }
    p23_cycle_normal(state)
}

/// The primary body of an inertial frame.
pub open spec fn primary_body_of(frame: Frame) -> Body {
    if frame == Frame::MoonInertial { Body::Moon } else { Body::Earth }
}

/// The body at the origin of an inertial frame: the Earth for the Earth
/// frame, the Moon for the Moon frame.  The stable-member frame has none.
pub fn primary_body(frame: Frame) -> (b: Body)
    requires
        frame != Frame::StableMember,
    ensures
        b == primary_body_of(frame),
        frame == Frame::EarthInertial ==> b == Body::Earth,
        frame == Frame::MoonInertial ==> b == Body::Moon,
{
    match frame {
        Frame::MoonInertial => Body::Moon,
        _ => Body::Earth,
    }
}

/// The state after a P23 mark at `t` was processed with `outcome`.
pub open spec fn p23_record_mark_post<N, V>(s: AgcState<N, V>, outcome: UpdateOutcome, t: Met) -> AgcState<N, V> {
    match outcome {
        UpdateOutcome::Accepted => AgcState { csm_nav: accepted_forward_post(s.csm_nav, t), ..s },
        UpdateOutcome::AcceptedWOverflow => {
            let r = p23_rectify_post(with_alarm(s, ALARM_W_OVERFLOW));
            AgcState { csm_nav: accepted_forward_post(r.csm_nav, t), ..r }
        },
        UpdateOutcome::Rejected => {
            let f = rejected_post(s.csm_nav);
            if f.consecutive_reject_count >= CONSECUTIVE_REJECT_LIMIT {
                with_alarm(AgcState { csm_nav: NavFilterState { tracking_active: false, ..f }, ..s }, ALARM_P23_REJECT_OVERRIDE)
            } else {
                AgcState { csm_nav: f, ..s }
            }
        },
    }
}

/// Bookkeeping after one star-horizon or star-landmark mark (time `t`):
/// as for P20, except that the last mark time only moves forward, with
/// alarm 01421 for W overflow (after which the rectified filter counts the
/// mark) and 01431 for the fifth consecutive reject.  Returns the registers
/// cleared by the rectification of a W overflow.
pub fn p23_record_mark<N, V>(state: &mut AgcState<N, V>, outcome: UpdateOutcome, t: Met) -> (r: Option<Registers>)
    requires
        outcome == UpdateOutcome::Accepted ==> old(state).csm_nav.mark_count < u16::MAX,
        outcome == UpdateOutcome::Rejected ==> old(state).csm_nav.reject_count < u16::MAX
            && old(state).csm_nav.consecutive_reject_count < u8::MAX,
    ensures
        *final(state) == p23_record_mark_post(*old(state), outcome, t),
        r == (if outcome == UpdateOutcome::AcceptedWOverflow { Some(cleared_registers()) } else { None }),
{
    match outcome {
        UpdateOutcome::Accepted => {
            record_accepted_forward(&mut state.csm_nav, t);
            None
        },
        UpdateOutcome::AcceptedWOverflow => {
            state.alarm.raise(ALARM_W_OVERFLOW);
            let cleared = p23_rectify_w_matrix(state);
            record_accepted_forward(&mut state.csm_nav, t);
            Some(cleared)
        },
        UpdateOutcome::Rejected => {
            let limit = record_rejected(&mut state.csm_nav);
            if limit {
                state.alarm.raise(ALARM_P23_REJECT_OVERRIDE);
                state.csm_nav.tracking_active = false;
            }
            None
        },
    }
}

/// The state after the checks of a mark with geometry `g`.
pub open spec fn mark_check_post<N, V>(s: AgcState<N, V>, g: MarkGeometry) -> AgcState<N, V> {
    if !s.csm_nav.tracking_active {
        s
    } else {
        match mark_geometry_alarm(g) {
            Some(code) => with_alarm(s, code),
            None => s,
        }
    }
}

/// Whether a star-horizon or star-landmark mark whose geometric checks
/// found `g` may be incorporated: never while tracking is off (the mark is
/// dropped silently); otherwise only a usable mark, each defect raising its
/// alarm (01426 star, 01427 angle or degenerate geometry, 01430 body,
/// 01432 landmark).
pub fn p23_check_mark<N, V>(state: &mut AgcState<N, V>, g: MarkGeometry) -> (ok: bool)
    ensures
        ok == (old(state).csm_nav.tracking_active && g == MarkGeometry::Usable),
        *final(state) == mark_check_post(*old(state), g),
{
    if !state.csm_nav.tracking_active {
        return false;
    }
    match g {
        MarkGeometry::Usable => true,
        MarkGeometry::StarNotUnit => {
            state.alarm.raise(ALARM_NO_STAR_LOCK);
            false
        },
        MarkGeometry::AngleOutOfRange => {
            state.alarm.raise(ALARM_BAD_ANGLE);
            false
        },
        MarkGeometry::TooCloseToBody => {
            state.alarm.raise(ALARM_P23_TOO_CLOSE_TO_BODY);
            false
        },
        MarkGeometry::LandmarkTooClose => {
            state.alarm.raise(ALARM_P23_LANDMARK_RANGE_ZERO);
            false
        },
        MarkGeometry::DegenerateGeometry => {
            state.alarm.raise(ALARM_BAD_ANGLE);
            false
        },
    }
}

/// The effect of one rejected mark taken at `t`.
pub open spec fn p23_reject_step<N, V>(t: Met) -> spec_fn(AgcState<N, V>) -> AgcState<N, V> {
    |x: AgcState<N, V>| p23_record_mark_post(x, UpdateOutcome::Rejected, t)
}

/// The filter the marks of P23 are counted on.
pub open spec fn p23_filter<N, V>() -> spec_fn(AgcState<N, V>) -> NavFilterState {
    |x: AgcState<N, V>| x.csm_nav
}

/// The state after `n` rejected marks in a row, all taken at `t`.
pub open spec fn p23_reject_run<N, V>(s: AgcState<N, V>, n: nat, t: Met) -> AgcState<N, V> {
    reject_run(p23_reject_step(t), s, n)
}

/// An accepted mark ends any reject run: after it, tracking survives four
/// rejected marks in a row, and the fifth stops tracking with alarm 01431.
pub proof fn lemma_p23_fifth_reject_stops_tracking<N, V>(s: AgcState<N, V>, t_accepted: Met, t: Met)
    ensures
        ({
            let a = p23_record_mark_post(s, UpdateOutcome::Accepted, t_accepted);
            &&& a.csm_nav.consecutive_reject_count == 0
            &&& forall|n: nat| #![trigger p23_reject_run(a, n, t)]
                n < CONSECUTIVE_REJECT_LIMIT ==> p23_reject_run(a, n, t).csm_nav.tracking_active
                    == s.csm_nav.tracking_active
            &&& !p23_reject_run(a, 5, t).csm_nav.tracking_active
            &&& p23_reject_run(a, 5, t).alarm.code == ALARM_P23_REJECT_OVERRIDE
        }),
{
    let a = p23_record_mark_post(s, UpdateOutcome::Accepted, t_accepted);
    let step = p23_reject_step::<N, V>(t);
    let filter = p23_filter::<N, V>();
    assert(counts_short_rejects(step, filter));
    assert forall|n: nat| #![trigger p23_reject_run(a, n, t)]
        n < CONSECUTIVE_REJECT_LIMIT implies p23_reject_run(a, n, t).csm_nav.tracking_active
        == s.csm_nav.tracking_active by {
        lemma_short_reject_run(step, filter, a, n);
    }
    lemma_short_reject_run(step, filter, a, 4);
    assert(p23_reject_run(a, 5, t) == step(reject_run(step, a, 4)));
}

/// A P23 cycle, with P23 active and the CSM in an inertial frame,
/// re-initialises the W-matrix exactly when more than a day (8 640 000 cs)
/// has passed since the last mark, and then rectifies (counters zero,
/// tracking on, last mark time now, registers cleared); a positive gap of at
/// most a day grows W by the whole gap and shows the mark and reject counts.
pub proof fn lemma_p23_cycle_covariance_by_gap<N, V>(s: AgcState<N, V>)
    requires
        s.major_mode == P23_MAJOR_MODE,
        s.csm_state.frame != Frame::StableMember,
    ensures
        (p23_cycle_covariance(s) == CovarianceUpdate::Reinitialise) <==> s.time.0 - s.csm_nav.last_mark_time.0 > 8_640_000,
        s.time.0 - s.csm_nav.last_mark_time.0 > 8_640_000 ==> {
            &&& p23_cycle_post(s).csm_nav.mark_count == 0
            &&& p23_cycle_post(s).csm_nav.reject_count == 0
            &&& p23_cycle_post(s).csm_nav.tracking_active
            &&& p23_cycle_post(s).csm_nav.last_mark_time == s.time
            &&& p23_cycle_registers(s) == Some(Registers { r1: 0, r2: 0, r3: 0 })
        },
        0 < s.time.0 - s.csm_nav.last_mark_time.0 <= 8_640_000 ==> {
            &&& p23_cycle_covariance(s) == CovarianceUpdate::Grow { dt_cs: (s.time.0 - s.csm_nav.last_mark_time.0) as u32 }
            &&& p23_cycle_post(s).csm_nav == s.csm_nav
        },
        s.time.0 - s.csm_nav.last_mark_time.0 <= 8_640_000 ==> p23_cycle_registers(s)
            == Some(Registers { r1: s.csm_nav.mark_count as i32, r2: s.csm_nav.reject_count as i32, r3: 0 }),
        s.time.0 <= s.csm_nav.last_mark_time.0 ==> p23_cycle_covariance(s) == CovarianceUpdate::Unchanged,
{
}

} // verus!
