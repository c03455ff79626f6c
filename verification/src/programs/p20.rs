//! P20 — Rendezvous navigation: program entry, the 2-second navigation
//! cycle, W-matrix rectification and mark bookkeeping.
//!
//! The floating-point parts (covariance arithmetic, Kepler propagation of
//! the target, LVLH geometry, the Kalman update itself) are performed by the
//! caller; the functions here take the outcomes of those computations as
//! plain values and return what the caller must do to the floating-point
//! data.
use vstd::prelude::*;
use crate::display::{cleared_registers, Registers};
use crate::executive::{schedule_effect, Task};
use crate::navigation::kalman::{
    accepted_post, covariance_update, covariance_update_for, record_accepted, record_rejected,
    rejected_post, CovarianceUpdate, UpdateOutcome, CONSECUTIVE_REJECT_LIMIT,
    counts_short_rejects, lemma_short_reject_run, reject_run, MAX_PROCESS_NOISE_DT_CS,
};
use crate::state::{schedule_alarm_post, schedule_or_alarm, with_alarm, AgcState, Dsky, NavFilterState};
use crate::types::JobPriority;

verus! {

/// Major mode of P20.
pub const P20_MAJOR_MODE: u8 = 20;
/// Job priority of P20.
pub const P20_PRIORITY: JobPriority = 8;
/// Navigation cycle period, centiseconds.
pub const NAV_CYCLE_CS: u16 = 200;
/// Alarm 01421: W-matrix lost positive definiteness.
pub const ALARM_W_OVERFLOW: u16 = 0o1421;
/// Alarm 00404: no valid target state, or target too close to track.
pub const ALARM_NO_RADAR: u16 = 0o404;
/// Alarm 00405: five consecutive marks rejected.
pub const ALARM_REJECT_OVERRIDE: u16 = 0o405;
/// Alarm 00400: CSM and target states in different frames.
pub const ALARM_FRAME_MISMATCH: u16 = 0o400;

/// Which LOS component a sextant mark observes.
#[derive(Clone, Copy, Debug, PartialEq, Eq, Structural)]
pub enum LosComponent {
    /// Inertial X component.
    X,
    /// Inertial Y component.
    Y,
    /// Inertial Z component.
    Z,
}

/// Where the propagated target lies relative to the CSM.
#[derive(Clone, Copy, Debug, PartialEq, Eq, Structural)]
pub enum RangeClass {
    /// Under 1 m: docked; nothing is updated.
    Contact,
    /// Under the 50 m minimum tracking range.
    TooClose,
    /// Far enough to track.
    Tracking,
}

/// What the caller does to the floating-point data after a navigation cycle.
#[derive(Clone, Copy, Debug, PartialEq, Eq, Structural)]
pub struct NavCycleEffects {
    /// Action on the W-matrix.
    pub covariance: CovarianceUpdate,
    /// Propagate the target state to the current time.
    pub propagate_target: bool,
    /// Recompute the LVLH state and write the N54 registers.
    pub update_display: bool,
    /// Register contents the cycle itself wrote (cleared by a
    /// rectification); the N54 registers of `update_display` follow them.
    pub registers: Option<Registers>,
}

/// The state after P20 entry, except for the Waitlist.
pub open spec fn p20_init_post<N, V>(s: AgcState<N, V>, target_is_zero: bool) -> AgcState<N, V> {
    let s1 = AgcState { major_mode: P20_MAJOR_MODE, dsky: Dsky { prog: P20_MAJOR_MODE, ..s.dsky }, ..s };
    if s.csm_state.frame != s.target_state.frame {
        with_alarm(
            AgcState { rendezvous_nav: NavFilterState { tracking_active: false, ..s.rendezvous_nav }, ..s1 },
            ALARM_FRAME_MISMATCH,
        )
    } else if target_is_zero {
        with_alarm(
            AgcState {
                rendezvous_nav: NavFilterState { tracking_active: false, ..s.rendezvous_nav },
                dsky: Dsky { verb: 6, noun: 49, ..s1.dsky },
                ..s1
            },
            ALARM_NO_RADAR,
        )
    } else {
        schedule_alarm_post(
            AgcState {
                rendezvous_nav: NavFilterState {
                    epoch: s.target_state.epoch,
                    last_mark_time: s.time,
                    mark_count: 0,
                    reject_count: 0,
                    consecutive_reject_count: 0,
                    tracking_active: true,
                },
                dsky: Dsky { verb: 6, noun: 49, flashing: false, ..s1.dsky },
                ..s1
            },
        )
    }
}

/// The registers P20 entry writes: none on a frame mismatch; R1 the
/// reject count with R2 and R3 zero for a zero target state; all three zero
/// when the filter starts.
pub open spec fn p20_init_registers<N, V>(s: AgcState<N, V>, target_is_zero: bool) -> Option<Registers> {
    if s.csm_state.frame != s.target_state.frame {
        None
    } else if target_is_zero {
        Some(Registers { r1: s.rendezvous_nav.reject_count as i32, r2: 0, r3: 0 })
    } else {
        Some(cleared_registers())
    }
}

/// P20 entry (table shim).
pub fn init_p20<N, V>(state: &mut AgcState<N, V>, target_is_zero: bool) -> (p: (JobPriority, Option<Registers>))
    ensures
        p == (P20_PRIORITY, p20_init_registers(*old(state), target_is_zero)),
        *final(state) == (AgcState { waitlist: final(state).waitlist, ..p20_init_post(*old(state), target_is_zero) }),
        old(state).csm_state.frame == old(state).target_state.frame && !target_is_zero
            ==> schedule_effect(old(state).waitlist@, NAV_CYCLE_CS, Task::P20NavCycle, final(state).waitlist@),
        !(old(state).csm_state.frame == old(state).target_state.frame && !target_is_zero)
            ==> final(state).waitlist@ == old(state).waitlist@,
{
    p20_init(state, target_is_zero)
}

/// P20 entry.  Selects P20 (also when an alarm follows).  With the CSM and
/// target states in different frames: alarm 00400, tracking off.  With a
/// zero target state (`target_is_zero`: position and velocity both zero):
/// alarm 00404, tracking off, V06 N49 with the reject count in R1.
/// Otherwise the target filter is reset to the uplinked target epoch with
/// tracking on, V06 N49 is shown with cleared registers and the navigation
/// cycle is queued (alarm 1211 if the Waitlist is full); the caller then
/// loads the target vectors and the default W-matrix.  Returns the priority
/// and the registers written.
pub fn p20_init<N, V>(state: &mut AgcState<N, V>, target_is_zero: bool) -> (p: (JobPriority, Option<Registers>))
    ensures
        p == (P20_PRIORITY, p20_init_registers(*old(state), target_is_zero)),
        *final(state) == (AgcState { waitlist: final(state).waitlist, ..p20_init_post(*old(state), target_is_zero) }),
        old(state).csm_state.frame == old(state).target_state.frame && !target_is_zero
            ==> schedule_effect(old(state).waitlist@, NAV_CYCLE_CS, Task::P20NavCycle, final(state).waitlist@),
        !(old(state).csm_state.frame == old(state).target_state.frame && !target_is_zero)
            ==> final(state).waitlist@ == old(state).waitlist@,
{
    state.major_mode = P20_MAJOR_MODE;
    state.dsky.prog = P20_MAJOR_MODE;
    if state.csm_state.frame != state.target_state.frame {
        state.alarm.raise(ALARM_FRAME_MISMATCH);
        state.rendezvous_nav.tracking_active = false;
        return (P20_PRIORITY, None);
    }
    if target_is_zero {
        state.alarm.raise(ALARM_NO_RADAR);
        state.rendezvous_nav.tracking_active = false;
        state.dsky.verb = 6;
        state.dsky.noun = 49;
        let rejects: i32 = state.rendezvous_nav.reject_count as i32;
        return (P20_PRIORITY, Some(Registers { r1: rejects, r2: 0, r3: 0 }));
    }
    state.rendezvous_nav.epoch = state.target_state.epoch;
    state.rendezvous_nav.last_mark_time = state.time;
    state.rendezvous_nav.mark_count = 0;
    state.rendezvous_nav.reject_count = 0;
    state.rendezvous_nav.consecutive_reject_count = 0;
    state.rendezvous_nav.tracking_active = true;
    state.dsky.verb = 6;
    state.dsky.noun = 49;
    state.dsky.flashing = false;
    schedule_or_alarm(state, NAV_CYCLE_CS, Task::P20NavCycle);
    (P20_PRIORITY, Some(Registers { r1: 0, r2: 0, r3: 0 }))
}

/// The state after a W-matrix rectification: counters cleared, last mark
/// time set to now, V06 N49 shown.
pub open spec fn p20_rectify_post<N, V>(s: AgcState<N, V>) -> AgcState<N, V> {
    AgcState {
        rendezvous_nav: NavFilterState { mark_count: 0, reject_count: 0, last_mark_time: s.time, ..s.rendezvous_nav },
        dsky: Dsky { verb: 6, noun: 49, ..s.dsky },
        ..s
    }
}

/// Rectify the W-matrix (crew V32E, or automatically): clear the mark and
/// reject counts, restart the process-noise clock and show V06 N49 with
/// cleared registers (returned).  The caller resets the matrix to its
/// default diagonal.
pub fn p20_rectify_w_matrix<N, V>(state: &mut AgcState<N, V>) -> (r: Registers)
    ensures
        *final(state) == p20_rectify_post(*old(state)),
        r == cleared_registers(),
{
    state.rendezvous_nav.mark_count = 0;
    state.rendezvous_nav.reject_count = 0;
    state.rendezvous_nav.last_mark_time = state.time;
    state.dsky.verb = 6;
    state.dsky.noun = 49;
    Registers { r1: 0, r2: 0, r3: 0 }
}

/// The state after re-queuing the cycle: nothing unless P20 is still the
/// major mode, then alarm 1211 if the Waitlist is full.
pub open spec fn p20_reschedule_post<N, V>(s: AgcState<N, V>) -> AgcState<N, V> {
    if s.major_mode != P20_MAJOR_MODE {
        s
    } else {
        schedule_alarm_post(s)
    }
}

fn reschedule_if_active<N, V>(state: &mut AgcState<N, V>)
    ensures
        *final(state) == (AgcState { waitlist: final(state).waitlist, ..p20_reschedule_post(*old(state)) }),
        old(state).major_mode == P20_MAJOR_MODE
            ==> schedule_effect(old(state).waitlist@, NAV_CYCLE_CS, Task::P20NavCycle, final(state).waitlist@),
        old(state).major_mode != P20_MAJOR_MODE ==> final(state).waitlist@ == old(state).waitlist@,
{
    if state.major_mode != P20_MAJOR_MODE {
        return;
    }
    schedule_or_alarm(state, NAV_CYCLE_CS, Task::P20NavCycle);
}

/// Whether the target state must be propagated in a cycle that starts in `s`
/// (its epoch differs from the current time).
pub open spec fn nav_cycle_propagates<N, V>(s: AgcState<N, V>) -> bool {
    s.rendezvous_nav.epoch != s.time
}

/// The state after the covariance and propagation steps of a cycle.
pub open spec fn nav_cycle_prefix<N, V>(s: AgcState<N, V>) -> AgcState<N, V> {
    let s1 = if covariance_update_for(s.time, s.rendezvous_nav.last_mark_time, MAX_PROCESS_NOISE_DT_CS) == CovarianceUpdate::Reinitialise {
        p20_rectify_post(s)
    } else {
        s
    };
    AgcState { rendezvous_nav: NavFilterState { epoch: s1.time, ..s1.rendezvous_nav }, ..s1 }
}

/// The state after one navigation cycle, except for the Waitlist.
pub open spec fn nav_cycle_state<N, V>(s: AgcState<N, V>, range: RangeClass) -> AgcState<N, V> {
    if s.csm_state.frame != s.target_state.frame {
        p20_reschedule_post(with_alarm(
            AgcState { rendezvous_nav: NavFilterState { tracking_active: false, ..s.rendezvous_nav }, ..s },
            ALARM_FRAME_MISMATCH,
        ))
    } else {
        nav_cycle_finish_post(nav_cycle_prefix(s), range)
    }
}

/// What the caller does to the floating-point data after a cycle.
pub open spec fn nav_cycle_effects<N, V>(s: AgcState<N, V>, range: RangeClass) -> NavCycleEffects {
    if s.csm_state.frame != s.target_state.frame {
        NavCycleEffects {
            covariance: CovarianceUpdate::Unchanged,
            propagate_target: false,
            update_display: false,
            registers: None,
        }
    } else {
        let cov = covariance_update_for(s.time, s.rendezvous_nav.last_mark_time, MAX_PROCESS_NOISE_DT_CS);
        NavCycleEffects {
            covariance: cov,
            propagate_target: nav_cycle_propagates(s),
            update_display: range == RangeClass::Tracking,
            registers: if cov == CovarianceUpdate::Reinitialise { Some(cleared_registers()) } else { None },
        }
    }
}

/// Covariance and propagation steps of a cycle.
fn nav_cycle_prefix_steps<N, V>(state: &mut AgcState<N, V>) -> (r: (CovarianceUpdate, bool))
    ensures
        *final(state) == nav_cycle_prefix(*old(state)),
        r == (covariance_update_for(old(state).time, old(state).rendezvous_nav.last_mark_time, MAX_PROCESS_NOISE_DT_CS), nav_cycle_propagates(*old(state))),
{
    let cov = covariance_update(state.time, state.rendezvous_nav.last_mark_time, MAX_PROCESS_NOISE_DT_CS);
    if cov == CovarianceUpdate::Reinitialise {
        let _ = p20_rectify_w_matrix(state);
    }
    let prop = state.rendezvous_nav.epoch != state.time;
    state.rendezvous_nav.epoch = state.time;
    (cov, prop)
}

/// The range-dependent end of a cycle, from the state after the prefix.
pub open spec fn nav_cycle_finish_post<N, V>(s2: AgcState<N, V>, range: RangeClass) -> AgcState<N, V> {
    match range {
        RangeClass::Contact => p20_reschedule_post(s2),
        RangeClass::TooClose => p20_reschedule_post(with_alarm(
            AgcState { rendezvous_nav: NavFilterState { tracking_active: false, ..s2.rendezvous_nav }, ..s2 },
            ALARM_NO_RADAR,
        )),
        RangeClass::Tracking => p20_reschedule_post(
            AgcState { dsky: Dsky { verb: 16, noun: 54, flashing: false, ..s2.dsky }, ..s2 },
        ),
    }
}

fn nav_cycle_too_close<N, V>(state: &mut AgcState<N, V>)
    ensures
        *final(state) == (AgcState { waitlist: final(state).waitlist, ..nav_cycle_finish_post(*old(state), RangeClass::TooClose) }),
        old(state).major_mode == P20_MAJOR_MODE
            ==> schedule_effect(old(state).waitlist@, NAV_CYCLE_CS, Task::P20NavCycle, final(state).waitlist@),
        old(state).major_mode != P20_MAJOR_MODE ==> final(state).waitlist@ == old(state).waitlist@,
{
    state.rendezvous_nav.tracking_active = false;
    state.alarm.raise(ALARM_NO_RADAR);
    reschedule_if_active(state);
}

fn nav_cycle_tracking<N, V>(state: &mut AgcState<N, V>)
    ensures
        *final(state) == (AgcState { waitlist: final(state).waitlist, ..nav_cycle_finish_post(*old(state), RangeClass::Tracking) }),
        old(state).major_mode == P20_MAJOR_MODE
            ==> schedule_effect(old(state).waitlist@, NAV_CYCLE_CS, Task::P20NavCycle, final(state).waitlist@),
        old(state).major_mode != P20_MAJOR_MODE ==> final(state).waitlist@ == old(state).waitlist@,
{
    state.dsky.verb = 16;
    state.dsky.noun = 54;
    state.dsky.flashing = false;
    reschedule_if_active(state);
}

fn nav_cycle_finish<N, V>(state: &mut AgcState<N, V>, range: RangeClass)
    ensures
        *final(state) == (AgcState { waitlist: final(state).waitlist, ..nav_cycle_finish_post(*old(state), range) }),
        old(state).major_mode == P20_MAJOR_MODE
            ==> schedule_effect(old(state).waitlist@, NAV_CYCLE_CS, Task::P20NavCycle, final(state).waitlist@),
        old(state).major_mode != P20_MAJOR_MODE ==> final(state).waitlist@ == old(state).waitlist@,
{
    match range {
        RangeClass::Contact => reschedule_if_active(state),
        RangeClass::TooClose => nav_cycle_too_close(state),
        RangeClass::Tracking => nav_cycle_tracking(state),
    }
}

/// One rendezvous navigation cycle at the current time.  `range` classifies
/// the CSM-to-target distance after the target is brought to the current
/// time.
///
/// With the CSM and target in different frames: alarm 00400, tracking off,
/// nothing else.  Otherwise: the covariance is re-initialised (with a
/// rectification) after more than an hour without marks, or grown by the
/// elapsed time; the target epoch advances to now; then under 1 m nothing
/// more happens, under 50 m tracking stops with alarm 00404, else V16 N54 is
/// shown.  In every case the cycle is re-queued while P20 is the major mode.
/// Returns the caller's actions on the floating-point data, with the
/// registers cleared by a rectification.
#[verifier::spinoff_prover]
pub fn p20_rendezvous_nav_cycle<N, V>(state: &mut AgcState<N, V>, range: RangeClass) -> (e: NavCycleEffects)
    ensures
        *final(state) == (AgcState { waitlist: final(state).waitlist, ..nav_cycle_state(*old(state), range) }),
        e == nav_cycle_effects(*old(state), range),
        old(state).major_mode == P20_MAJOR_MODE
            ==> schedule_effect(old(state).waitlist@, NAV_CYCLE_CS, Task::P20NavCycle, final(state).waitlist@),
        old(state).major_mode != P20_MAJOR_MODE ==> final(state).waitlist@ == old(state).waitlist@,
{
    if state.csm_state.frame != state.target_state.frame {
        state.alarm.raise(ALARM_FRAME_MISMATCH);
        state.rendezvous_nav.tracking_active = false;
        reschedule_if_active(state);
        return NavCycleEffects {
            covariance: CovarianceUpdate::Unchanged,
            propagate_target: false,
            update_display: false,
            registers: None,
        };
    }
    let (cov, prop) = nav_cycle_prefix_steps(state);
    nav_cycle_finish(state, range);
    let registers = if cov == CovarianceUpdate::Reinitialise { Some(Registers { r1: 0, r2: 0, r3: 0 }) } else { None };
    NavCycleEffects { covariance: cov, propagate_target: prop, update_display: range == RangeClass::Tracking, registers }
}

/// The state after a radar or sextant mark taken at `t` was processed by
/// the Kalman update with result `outcome`.
pub open spec fn p20_record_mark_post<N, V>(s: AgcState<N, V>, outcome: UpdateOutcome, t: crate::types::Met) -> AgcState<N, V> {
    match outcome {
        UpdateOutcome::Accepted => AgcState { rendezvous_nav: accepted_post(s.rendezvous_nav, t), ..s },
        UpdateOutcome::AcceptedWOverflow => {
            let r = p20_rectify_post(with_alarm(s, ALARM_W_OVERFLOW));
            AgcState { rendezvous_nav: accepted_post(r.rendezvous_nav, t), ..r }
        },
        UpdateOutcome::Rejected => {
            let f = rejected_post(s.rendezvous_nav);
            if f.consecutive_reject_count >= CONSECUTIVE_REJECT_LIMIT {
                with_alarm(AgcState { rendezvous_nav: NavFilterState { tracking_active: false, ..f }, ..s }, ALARM_REJECT_OVERRIDE)
            } else {
                AgcState { rendezvous_nav: f, ..s }
            }
        },
    }
}

/// Bookkeeping after one radar or sextant mark (time `t`).  Accepted: one
/// more mark, reject run ended.  Accepted with W overflow: alarm 01421 and
/// a rectification first (its cleared registers are returned), then
/// counted as accepted.  Rejected: one more reject; the fifth consecutive
/// one raises alarm 00405 and stops tracking.
pub fn p20_record_mark<N, V>(state: &mut AgcState<N, V>, outcome: UpdateOutcome, t: crate::types::Met) -> (r: Option<Registers>)
    requires
        outcome == UpdateOutcome::Accepted ==> old(state).rendezvous_nav.mark_count < u16::MAX,
        outcome == UpdateOutcome::Rejected ==> old(state).rendezvous_nav.reject_count < u16::MAX
            && old(state).rendezvous_nav.consecutive_reject_count < u8::MAX,
    ensures
        *final(state) == p20_record_mark_post(*old(state), outcome, t),
        r == (if outcome == UpdateOutcome::AcceptedWOverflow { Some(cleared_registers()) } else { None }),
{
    match outcome {
        UpdateOutcome::Accepted => {
            record_accepted(&mut state.rendezvous_nav, t);
            None
        },
        UpdateOutcome::AcceptedWOverflow => {
            state.alarm.raise(ALARM_W_OVERFLOW);
            let cleared = p20_rectify_w_matrix(state);
            record_accepted(&mut state.rendezvous_nav, t);
            Some(cleared)
        },
        UpdateOutcome::Rejected => {
            let limit = record_rejected(&mut state.rendezvous_nav);
            if limit {
                state.alarm.raise(ALARM_REJECT_OVERRIDE);
                state.rendezvous_nav.tracking_active = false;
            }
            None
        },
    }
}

/// The effect of one rejected mark taken at `t`.
pub open spec fn p20_reject_step<N, V>(t: crate::types::Met) -> spec_fn(AgcState<N, V>) -> AgcState<N, V> {
    |x: AgcState<N, V>| p20_record_mark_post(x, UpdateOutcome::Rejected, t)
}

/// The filter the marks of P20 are counted on.
pub open spec fn p20_filter<N, V>() -> spec_fn(AgcState<N, V>) -> NavFilterState {
    |x: AgcState<N, V>| x.rendezvous_nav
}

/// The state after `n` rejected marks in a row, all taken at `t`.
pub open spec fn p20_reject_run<N, V>(s: AgcState<N, V>, n: nat, t: crate::types::Met) -> AgcState<N, V> {
    reject_run(p20_reject_step(t), s, n)
}

/// An accepted mark ends any reject run: after it, tracking survives four
/// rejected marks in a row, and the fifth stops tracking with alarm 00405.
pub proof fn lemma_p20_fifth_reject_stops_tracking<N, V>(
    s: AgcState<N, V>,
    t_accepted: crate::types::Met,
    t: crate::types::Met,
)
    ensures
        ({
            let a = p20_record_mark_post(s, UpdateOutcome::Accepted, t_accepted);
            &&& a.rendezvous_nav.consecutive_reject_count == 0
            &&& forall|n: nat| #![trigger p20_reject_run(a, n, t)]
                n < CONSECUTIVE_REJECT_LIMIT ==> p20_reject_run(a, n, t).rendezvous_nav.tracking_active
                    == s.rendezvous_nav.tracking_active
            &&& !p20_reject_run(a, 5, t).rendezvous_nav.tracking_active
            &&& p20_reject_run(a, 5, t).alarm.code == ALARM_REJECT_OVERRIDE
        }),
{
    let a = p20_record_mark_post(s, UpdateOutcome::Accepted, t_accepted);
    let step = p20_reject_step::<N, V>(t);
    let filter = p20_filter::<N, V>();
    assert(counts_short_rejects(step, filter));
    assert forall|n: nat| #![trigger p20_reject_run(a, n, t)]
        n < CONSECUTIVE_REJECT_LIMIT implies p20_reject_run(a, n, t).rendezvous_nav.tracking_active
        == s.rendezvous_nav.tracking_active by {
        lemma_short_reject_run(step, filter, a, n);
    }
    lemma_short_reject_run(step, filter, a, 4);
    assert(p20_reject_run(a, 5, t) == step(reject_run(step, a, 4)));
}

/// A navigation cycle with the CSM and the target in one frame
/// re-initialises the W-matrix exactly when more than an hour (360 000 cs)
/// has passed since the last mark, and then rectifies (mark and reject
/// counts zero, last mark time now, registers cleared); a positive gap of
/// at most an hour grows W by the whole gap, and no gap changes nothing.
pub proof fn lemma_p20_cycle_covariance_by_gap<N, V>(s: AgcState<N, V>, range: RangeClass)
    requires
        s.csm_state.frame == s.target_state.frame,
    ensures
        (nav_cycle_effects(s, range).covariance == CovarianceUpdate::Reinitialise)
            <==> s.time.0 - s.rendezvous_nav.last_mark_time.0 > 360_000,
        s.time.0 - s.rendezvous_nav.last_mark_time.0 > 360_000 ==> {
            &&& nav_cycle_state(s, range).rendezvous_nav.mark_count == 0
            &&& nav_cycle_state(s, range).rendezvous_nav.reject_count == 0
            &&& nav_cycle_state(s, range).rendezvous_nav.last_mark_time == s.time
            &&& nav_cycle_effects(s, range).registers == Some(Registers { r1: 0, r2: 0, r3: 0 })
        },
        0 < s.time.0 - s.rendezvous_nav.last_mark_time.0 <= 360_000 ==> {
            &&& nav_cycle_effects(s, range).covariance
                == CovarianceUpdate::Grow { dt_cs: (s.time.0 - s.rendezvous_nav.last_mark_time.0) as u32 }
            &&& nav_cycle_state(s, range).rendezvous_nav.mark_count == s.rendezvous_nav.mark_count
            &&& nav_cycle_state(s, range).rendezvous_nav.last_mark_time == s.rendezvous_nav.last_mark_time
            &&& nav_cycle_effects(s, range).registers is None
        },
        s.time.0 <= s.rendezvous_nav.last_mark_time.0
            ==> nav_cycle_effects(s, range).covariance == CovarianceUpdate::Unchanged,
        nav_cycle_state(s, range).rendezvous_nav.epoch == s.time,
{
}

} // verus!
