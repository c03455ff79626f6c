//! P22 — Orbital navigation by landmark tracking: entry, the 2-second
//! cycle, W-matrix rectification and mark bookkeeping of the CSM filter.
use vstd::prelude::*;
use crate::executive::{schedule_effect, Task};
use crate::navigation::kalman::{
    accepted_post, covariance_update, covariance_update_for, record_accepted, record_rejected,
    rejected_post, CovarianceUpdate, UpdateOutcome, CONSECUTIVE_REJECT_LIMIT,
    counts_short_rejects, lemma_short_reject_run, reject_run, MAX_PROCESS_NOISE_DT_CS,
};
use crate::display::{cleared_registers, Registers};
use crate::state::{schedule_alarm_post, schedule_or_alarm, with_alarm, AgcState, Dsky, NavFilterState};
use crate::types::{Frame, JobPriority, Met};

verus! {

/// Major mode of P22.
pub const P22_MAJOR_MODE: u8 = 22;
/// Job priority of P22.
pub const P22_PRIORITY: JobPriority = 8;
/// Cycle period, centiseconds.
pub const P22_CYCLE_CS: u16 = 200;
/// Alarm 01420: no valid CSM state vector.
pub const ALARM_NO_CSM_SV: u16 = 0o1420;
/// Alarm 01421: W-matrix lost positive definiteness.
pub const ALARM_CSM_W_OVERFLOW: u16 = 0o1421;
/// Alarm 01422: five consecutive landmark marks rejected.
pub const ALARM_LANDMARK_REJECT: u16 = 0o1422;
/// Alarm 01424: landmark index outside 1..=8.
pub const ALARM_BAD_LANDMARK_INDEX: u16 = 0o1424;
/// Alarm 01425: CSM-to-landmark range below the minimum.
pub const ALARM_LANDMARK_RANGE_ZERO: u16 = 0o1425;
/// Alarm 00400: CSM state not in the Earth frame.
pub const ALARM_FRAME_MISMATCH: u16 = 0o400;
/// Number of landmarks in the table.
pub const LANDMARK_COUNT: u8 = 8;

/// `s` with the CSM filter's tracking turned off.
pub open spec fn csm_tracking_off<N, V>(s: AgcState<N, V>) -> AgcState<N, V> {
    AgcState { csm_nav: NavFilterState { tracking_active: false, ..s.csm_nav }, ..s }
}

/// The state after P22 entry, except for the Waitlist.
pub open spec fn p22_init_post<N, V>(s: AgcState<N, V>) -> AgcState<N, V> {
    let s1 = AgcState { major_mode: P22_MAJOR_MODE, dsky: Dsky { prog: P22_MAJOR_MODE, ..s.dsky }, ..s };
    if s.csm_state.frame != Frame::EarthInertial {
        with_alarm(csm_tracking_off(s1), ALARM_FRAME_MISMATCH)
    } else if s.csm_state.epoch.0 == 0 {
        with_alarm(csm_tracking_off(s1), ALARM_NO_CSM_SV)
    } else {
        schedule_alarm_post(
            AgcState {
                csm_nav: NavFilterState {
                    last_mark_time: s.time,
                    mark_count: 0,
                    reject_count: 0,
                    consecutive_reject_count: 0,
                    tracking_active: true,
                    ..s.csm_nav
                },
                dsky: Dsky { verb: 16, noun: 43, flashing: false, ..s1.dsky },
                ..s1
            },
        )
    }
}

/// The entry succeeds (the cycle is started) from state `s`.
pub open spec fn p22_init_starts<N, V>(s: AgcState<N, V>) -> bool {
    s.csm_state.frame == Frame::EarthInertial && s.csm_state.epoch.0 != 0
}

/// P22 entry.  Selects P22.  The CSM state must be in the Earth frame
/// (else alarm 00400) and initialised (else alarm 01420); both alarms stop
/// tracking.  On success the CSM filter counters are reset with tracking
/// on, V16 N43 is shown and the cycle is queued (alarm 1211 if the Waitlist
/// is full); the caller loads the default W-matrix.
pub fn p22_init<N, V>(state: &mut AgcState<N, V>) -> (p: JobPriority)
    ensures
        p == P22_PRIORITY,
        *final(state) == (AgcState { waitlist: final(state).waitlist, ..p22_init_post(*old(state)) }),
        p22_init_starts(*old(state))
            ==> schedule_effect(old(state).waitlist@, P22_CYCLE_CS, Task::P22CycleTask, final(state).waitlist@),
        !p22_init_starts(*old(state)) ==> final(state).waitlist@ == old(state).waitlist@,
{
    state.major_mode = P22_MAJOR_MODE;
    state.dsky.prog = P22_MAJOR_MODE;
    if state.csm_state.frame != Frame::EarthInertial {
        state.alarm.raise(ALARM_FRAME_MISMATCH);
        state.csm_nav.tracking_active = false;
        return P22_PRIORITY;
    }
    if state.csm_state.epoch.0 == 0 {
        state.alarm.raise(ALARM_NO_CSM_SV);
        state.csm_nav.tracking_active = false;
        return P22_PRIORITY;
    }
    state.csm_nav.last_mark_time = state.time;
    state.csm_nav.mark_count = 0;
    state.csm_nav.reject_count = 0;
    state.csm_nav.consecutive_reject_count = 0;
    state.csm_nav.tracking_active = true;
    state.dsky.verb = 16;
    state.dsky.noun = 43;
    state.dsky.flashing = false;
    schedule_or_alarm(state, P22_CYCLE_CS, Task::P22CycleTask);
    P22_PRIORITY
}

/// The state after a P22 W-matrix rectification.
pub open spec fn p22_rectify_post<N, V>(s: AgcState<N, V>) -> AgcState<N, V> {
    AgcState {
        csm_nav: NavFilterState {
            mark_count: 0,
            reject_count: 0,
            consecutive_reject_count: 0,
            last_mark_time: s.time,
            ..s.csm_nav
        },
        dsky: Dsky { verb: 6, noun: 49, ..s.dsky },
        ..s
    }
}

/// Rectify the P22 W-matrix: clear all counters, restart the process-noise
/// clock, show V06 N49 with cleared registers (returned); tracking is left
/// as it is.  The caller resets the matrix to its default diagonal.
pub fn p22_rectify_w_matrix<N, V>(state: &mut AgcState<N, V>) -> (r: Registers)
    ensures
        *final(state) == p22_rectify_post(*old(state)),
        r == cleared_registers(),
{
    state.csm_nav.mark_count = 0;
    state.csm_nav.reject_count = 0;
    state.csm_nav.consecutive_reject_count = 0;
    state.csm_nav.last_mark_time = state.time;
    state.dsky.verb = 6;
    state.dsky.noun = 49;
    Registers { r1: 0, r2: 0, r3: 0 }
}

/// The state after re-queuing the cycle while P22 is the major mode.
pub open spec fn p22_reschedule_post<N, V>(s: AgcState<N, V>) -> AgcState<N, V> {
    if s.major_mode != P22_MAJOR_MODE {
        s
    } else {
        schedule_alarm_post(s)
    }
}

fn reschedule_if_active<N, V>(state: &mut AgcState<N, V>)
    ensures
        *final(state) == (AgcState { waitlist: final(state).waitlist, ..p22_reschedule_post(*old(state)) }),
        old(state).major_mode == P22_MAJOR_MODE
            ==> schedule_effect(old(state).waitlist@, P22_CYCLE_CS, Task::P22CycleTask, final(state).waitlist@),
        old(state).major_mode != P22_MAJOR_MODE ==> final(state).waitlist@ == old(state).waitlist@,
{
    if state.major_mode != P22_MAJOR_MODE {
        return;
    }
    schedule_or_alarm(state, P22_CYCLE_CS, Task::P22CycleTask);
}

/// The state after one P22 cycle, except for the Waitlist.
pub open spec fn p22_cycle_post<N, V>(s: AgcState<N, V>) -> AgcState<N, V> {
    if s.csm_state.frame != Frame::EarthInertial {
        p22_reschedule_post(with_alarm(csm_tracking_off(s), ALARM_FRAME_MISMATCH))
    } else {
        let s1 = if covariance_update_for(s.time, s.csm_nav.last_mark_time, MAX_PROCESS_NOISE_DT_CS) == CovarianceUpdate::Reinitialise {
            p22_rectify_post(s)
        } else {
            s
        };
        p22_reschedule_post(AgcState { dsky: Dsky { verb: 16, noun: 43, flashing: false, ..s1.dsky }, ..s1 })
    }
}

/// The covariance action of a P22 cycle from state `s`.
pub open spec fn p22_cycle_covariance<N, V>(s: AgcState<N, V>) -> CovarianceUpdate {
    if s.csm_state.frame != Frame::EarthInertial {
        CovarianceUpdate::Unchanged
    } else {
        covariance_update_for(s.time, s.csm_nav.last_mark_time, MAX_PROCESS_NOISE_DT_CS)
    }
}

fn p22_cycle_normal<N, V>(state: &mut AgcState<N, V>) -> (cov: CovarianceUpdate)
    requires
        old(state).csm_state.frame == Frame::EarthInertial,
    ensures
        *final(state) == (AgcState { waitlist: final(state).waitlist, ..p22_cycle_post(*old(state)) }),
        cov == p22_cycle_covariance(*old(state)),
        old(state).major_mode == P22_MAJOR_MODE
            ==> schedule_effect(old(state).waitlist@, P22_CYCLE_CS, Task::P22CycleTask, final(state).waitlist@),
        old(state).major_mode != P22_MAJOR_MODE ==> final(state).waitlist@ == old(state).waitlist@,
{
    let cov = covariance_update(state.time, state.csm_nav.last_mark_time, MAX_PROCESS_NOISE_DT_CS);
    if cov == CovarianceUpdate::Reinitialise {
        let _ = p22_rectify_w_matrix(state);
    }
    state.dsky.verb = 16;
    state.dsky.noun = 43;
    state.dsky.flashing = false;
    reschedule_if_active(state);
    cov
}

/// One P22 cycle.  With the CSM state outside the Earth frame: alarm 00400
/// and tracking off.  Otherwise the covariance action is decided (a
/// rectification after more than an hour without marks) and V16 N43 is
/// shown; the caller applies the covariance action and writes the
/// sub-satellite point.  The cycle re-queues itself while P22 is the major
/// mode.
pub fn p22_cycle_task<N, V>(state: &mut AgcState<N, V>) -> (cov: CovarianceUpdate)
    ensures
        *final(state) == (AgcState { waitlist: final(state).waitlist, ..p22_cycle_post(*old(state)) }),
        cov == p22_cycle_covariance(*old(state)),
        old(state).major_mode == P22_MAJOR_MODE
            ==> schedule_effect(old(state).waitlist@, P22_CYCLE_CS, Task::P22CycleTask, final(state).waitlist@),
        old(state).major_mode != P22_MAJOR_MODE ==> final(state).waitlist@ == old(state).waitlist@,
{
    if state.csm_state.frame != Frame::EarthInertial {
        state.alarm.raise(ALARM_FRAME_MISMATCH);
        state.csm_nav.tracking_active = false;
        reschedule_if_active(state);
        return CovarianceUpdate::Unchanged;
    }
    p22_cycle_normal(state)
}

/// Whether a landmark mark may be incorporated, and the alarm otherwise.
pub open spec fn landmark_mark_check_post<N, V>(s: AgcState<N, V>, landmark_index: u8, range_sufficient: bool) -> AgcState<N, V> {
    if !s.csm_nav.tracking_active {
        s
    } else if landmark_index == 0 || landmark_index > LANDMARK_COUNT {
        with_alarm(s, ALARM_BAD_LANDMARK_INDEX)
    } else if !range_sufficient {
        with_alarm(s, ALARM_LANDMARK_RANGE_ZERO)
    } else {
        s
    }
}

/// Screen a landmark mark before its Kalman update.  Returns true when the
/// update goes ahead: tracking on, landmark index in 1..=8 (else alarm
/// 01424) and the CSM-to-landmark range at least the minimum
/// (`range_sufficient`; else alarm 01425).  With tracking off the mark is
/// dropped silently.
pub fn p22_check_landmark_mark<N, V>(state: &mut AgcState<N, V>, landmark_index: u8, range_sufficient: bool) -> (ok: bool)
    ensures
        ok == (old(state).csm_nav.tracking_active && 1 <= landmark_index <= LANDMARK_COUNT && range_sufficient),
        *final(state) == landmark_mark_check_post(*old(state), landmark_index, range_sufficient),
{
    if !state.csm_nav.tracking_active {
        return false;
    }
    if landmark_index == 0 || landmark_index > LANDMARK_COUNT {
        state.alarm.raise(ALARM_BAD_LANDMARK_INDEX);
        return false;
    }
    if !range_sufficient {
        state.alarm.raise(ALARM_LANDMARK_RANGE_ZERO);
        return false;
    }
    true
}

/// The state after a landmark mark at `t` was processed with `outcome`.
pub open spec fn p22_record_mark_post<N, V>(s: AgcState<N, V>, outcome: UpdateOutcome, t: Met) -> AgcState<N, V> {
    match outcome {
        UpdateOutcome::Accepted => AgcState { csm_nav: accepted_post(s.csm_nav, t), ..s },
        UpdateOutcome::AcceptedWOverflow => {
            let r = p22_rectify_post(with_alarm(s, ALARM_CSM_W_OVERFLOW));
            AgcState { csm_nav: accepted_post(r.csm_nav, t), ..r }
        },
        UpdateOutcome::Rejected => {
            let f = rejected_post(s.csm_nav);
            if f.consecutive_reject_count >= CONSECUTIVE_REJECT_LIMIT {
                with_alarm(AgcState { csm_nav: NavFilterState { tracking_active: false, ..f }, ..s }, ALARM_LANDMARK_REJECT)
            } else {
                AgcState { csm_nav: f, ..s }
            }
        },
    }
}

/// Bookkeeping after one landmark mark (time `t`): as for P20, with alarm
/// 01421 for W overflow and 01422 for the fifth consecutive reject.
/// Returns the registers cleared by the rectification of a W overflow.
pub fn p22_record_mark<N, V>(state: &mut AgcState<N, V>, outcome: UpdateOutcome, t: Met) -> (r: Option<Registers>)
    requires
        outcome == UpdateOutcome::Accepted ==> old(state).csm_nav.mark_count < u16::MAX,
        outcome == UpdateOutcome::Rejected ==> old(state).csm_nav.reject_count < u16::MAX
            && old(state).csm_nav.consecutive_reject_count < u8::MAX,
    ensures
        *final(state) == p22_record_mark_post(*old(state), outcome, t),
        r == (if outcome == UpdateOutcome::AcceptedWOverflow { Some(cleared_registers()) } else { None }),
{
    match outcome {
        UpdateOutcome::Accepted => {
            record_accepted(&mut state.csm_nav, t);
            None
        },
        UpdateOutcome::AcceptedWOverflow => {
            state.alarm.raise(ALARM_CSM_W_OVERFLOW);
            let cleared = p22_rectify_w_matrix(state);
            record_accepted(&mut state.csm_nav, t);
            Some(cleared)
        },
        UpdateOutcome::Rejected => {
            let limit = record_rejected(&mut state.csm_nav);
            if limit {
                state.alarm.raise(ALARM_LANDMARK_REJECT);
                state.csm_nav.tracking_active = false;
            }
            None
        },
    }
}

/// The effect of one rejected mark taken at `t`.
pub open spec fn p22_reject_step<N, V>(t: Met) -> spec_fn(AgcState<N, V>) -> AgcState<N, V> {
    |x: AgcState<N, V>| p22_record_mark_post(x, UpdateOutcome::Rejected, t)
}

/// The filter the marks of P22 are counted on.
pub open spec fn p22_filter<N, V>() -> spec_fn(AgcState<N, V>) -> NavFilterState {
    |x: AgcState<N, V>| x.csm_nav
}

/// The state after `n` rejected marks in a row, all taken at `t`.
pub open spec fn p22_reject_run<N, V>(s: AgcState<N, V>, n: nat, t: Met) -> AgcState<N, V> {
    reject_run(p22_reject_step(t), s, n)
}

/// An accepted mark ends any reject run: after it, tracking survives four
/// rejected marks in a row, and the fifth stops tracking with alarm 01422.
pub proof fn lemma_p22_fifth_reject_stops_tracking<N, V>(s: AgcState<N, V>, t_accepted: Met, t: Met)
    ensures
        ({
            let a = p22_record_mark_post(s, UpdateOutcome::Accepted, t_accepted);
            &&& a.csm_nav.consecutive_reject_count == 0
            &&& forall|n: nat| #![trigger p22_reject_run(a, n, t)]
                n < CONSECUTIVE_REJECT_LIMIT ==> p22_reject_run(a, n, t).csm_nav.tracking_active
                    == s.csm_nav.tracking_active
            &&& !p22_reject_run(a, 5, t).csm_nav.tracking_active
            &&& p22_reject_run(a, 5, t).alarm.code == ALARM_LANDMARK_REJECT
        }),
{
    let a = p22_record_mark_post(s, UpdateOutcome::Accepted, t_accepted);
    let step = p22_reject_step::<N, V>(t);
    let filter = p22_filter::<N, V>();
    assert(counts_short_rejects(step, filter));
    assert forall|n: nat| #![trigger p22_reject_run(a, n, t)]
        n < CONSECUTIVE_REJECT_LIMIT implies p22_reject_run(a, n, t).csm_nav.tracking_active
        == s.csm_nav.tracking_active by {
        lemma_short_reject_run(step, filter, a, n);
    }
    lemma_short_reject_run(step, filter, a, 4);
    assert(p22_reject_run(a, 5, t) == step(reject_run(step, a, 4)));
}

/// A P22 cycle with the CSM in the Earth frame re-initialises the W-matrix
/// exactly when more than an hour (360 000 cs) has passed since the last
/// mark, and then rectifies: counters zero, last mark time now.  A positive
/// gap of at most an hour grows W by the whole gap and leaves the filter's
/// bookkeeping alone; no gap changes nothing.
pub proof fn lemma_p22_cycle_covariance_by_gap<N, V>(s: AgcState<N, V>)
    requires
        s.csm_state.frame == Frame::EarthInertial,
    ensures
        (p22_cycle_covariance(s) == CovarianceUpdate::Reinitialise) <==> s.time.0 - s.csm_nav.last_mark_time.0 > 360_000,
        s.time.0 - s.csm_nav.last_mark_time.0 > 360_000 ==> {
            &&& p22_cycle_post(s).csm_nav.mark_count == 0
            &&& p22_cycle_post(s).csm_nav.reject_count == 0
            &&& p22_cycle_post(s).csm_nav.consecutive_reject_count == 0
            &&& p22_cycle_post(s).csm_nav.last_mark_time == s.time
        },
        0 < s.time.0 - s.csm_nav.last_mark_time.0 <= 360_000 ==> {
            &&& p22_cycle_covariance(s) == CovarianceUpdate::Grow { dt_cs: (s.time.0 - s.csm_nav.last_mark_time.0) as u32 }
            &&& p22_cycle_post(s).csm_nav == s.csm_nav
        },
        s.time.0 <= s.csm_nav.last_mark_time.0 ==> p22_cycle_covariance(s) == CovarianceUpdate::Unchanged
            && p22_cycle_post(s).csm_nav == s.csm_nav,
{
}

} // verus!
