//! P40 — SPS thrusting; P41 — RCS thrusting: pre-ignition set-up.
//!
//! Both consume the pending maneuver: they check that one exists, that its
//! TIG is not past and that its delta-V is large enough to fly, then hand it
//! to the burn monitor.  P40 flies burns of at least 0.5 m/s on the SPS and
//! asks the crew to arm the engine; P41 flies smaller ones on the RCS.
use vstd::prelude::*;
use crate::services::{
    arm_engine_post, ignition_check_post, proceed_key_post, request_v50, request_v50_post, NOUN_BURN_STATUS,
};
use crate::state::{
    with_alarm, AgcState, BurnState, DapMode, DapState, Dsky, ServicerHook, V50Callback, V50Request,
};
use crate::types::{JobPriority, Met};

verus! {

/// Major mode of P40.
pub const P40_MAJOR_MODE: u8 = 40;
/// Major mode of P41.
pub const P41_MAJOR_MODE: u8 = 41;
/// Job priority of the thrusting programs.
pub const PRIORITY: JobPriority = 12;
/// Smallest delta-V flown on the SPS, mm/s (0.5 m/s).
pub const SPS_MIN_DV_MM_S: u32 = 500;
/// Smallest delta-V flown at all, mm/s (0.05 m/s).
pub const BURN_MIN_DV_MM_S: u32 = 50;
/// Alarm: no pending maneuver.
pub const ALARM_NO_PENDING_MANEUVER: u16 = 224;
/// Alarm: TIG already past.
pub const ALARM_TIG_IN_PAST: u16 = 225;
/// Alarm: delta-V too small to fly.
pub const ALARM_DV_TOO_SMALL: u16 = 226;
/// Alarm: burn too small for the SPS.
pub const ALARM_P40_WRONG_REGIME: u16 = 227;
/// Alarm: burn too large for the RCS.
pub const ALARM_P41_WRONG_REGIME: u16 = 228;
/// Display verb of the burn status (V06).
pub const VERB_DISPLAY: u8 = 6;
/// Noun of the engine-arm request (V50 N99).
pub const NOUN_ENGINE_ARM: u8 = 99;

/// The alarm the shared pre-ignition checks raise in `s`, if any.
pub open spec fn validation_alarm<N, V>(s: AgcState<N, V>) -> Option<u16> {
    match s.pending_maneuver {
        None => Some(ALARM_NO_PENDING_MANEUVER),
        Some(m) => if m.tig.0 < s.time.0 {
            Some(ALARM_TIG_IN_PAST)
        } else if m.dv_magnitude_mm_s < BURN_MIN_DV_MM_S {
            Some(ALARM_DV_TOO_SMALL)
        } else {
            None
        },
    }
}

/// The state after the pending maneuver is engaged as the live burn: the
/// maneuver moves into the burn state (burn active, not armed), the burn
/// monitor hook is installed and the SERVICER runs.
pub open spec fn engage_post<N, V>(s: AgcState<N, V>) -> AgcState<N, V> {
    let m = s.pending_maneuver.unwrap();
    AgcState {
        pending_maneuver: None,
        burn: BurnState { burn_active: true, armed: false, tig: m.tig, target_dv_inertial: Some(m.delta_v) },
        servicer_exit: Some(ServicerHook::BurnMonitor),
        servicer_active: true,
        ..s
    }
}

/// The state after the burn-status display is set up for program `prog`.
pub open spec fn burn_display_post<N, V>(s: AgcState<N, V>, prog: u8) -> AgcState<N, V> {
    AgcState { dsky: Dsky { prog, verb: VERB_DISPLAY, noun: NOUN_BURN_STATUS, flashing: false, ..s.dsky }, ..s }
}

/// The state after P40 entry.
pub open spec fn p40_init_post<N, V>(s: AgcState<N, V>) -> AgcState<N, V> {
    match validation_alarm(s) {
        Some(code) => with_alarm(s, code),
        None => if s.pending_maneuver.unwrap().dv_magnitude_mm_s < SPS_MIN_DV_MM_S {
            with_alarm(s, ALARM_P40_WRONG_REGIME)
        } else {
            let e = engage_post(s);
            let d = AgcState { dap_state: DapState { mode: DapMode::Maneuver }, major_mode: P40_MAJOR_MODE, ..e };
            request_v50_post(burn_display_post(d, P40_MAJOR_MODE), NOUN_ENGINE_ARM, V50Callback::P40ArmEngine)
        },
    }
}

/// The state after P41 entry.
pub open spec fn p41_init_post<N, V>(s: AgcState<N, V>) -> AgcState<N, V> {
    match validation_alarm(s) {
        Some(code) => with_alarm(s, code),
        None => if s.pending_maneuver.unwrap().dv_magnitude_mm_s >= SPS_MIN_DV_MM_S {
            with_alarm(s, ALARM_P41_WRONG_REGIME)
        } else {
            let e = engage_post(s);
            let d = AgcState { dap_state: DapState { mode: DapMode::AttitudeHold }, major_mode: P41_MAJOR_MODE, ..e };
            burn_display_post(d, P41_MAJOR_MODE)
        },
    }
}

/// Shared pre-ignition checks: returns the alarm to raise, if any.
fn validate_pending_maneuver<N, V>(state: &AgcState<N, V>) -> (r: Option<u16>)
    ensures
        r == validation_alarm(*state),
{
    match &state.pending_maneuver {
        None => Some(ALARM_NO_PENDING_MANEUVER),
        Some(m) => if m.tig.0 < state.time.0 {
            Some(ALARM_TIG_IN_PAST)
        } else if m.dv_magnitude_mm_s < BURN_MIN_DV_MM_S {
            Some(ALARM_DV_TOO_SMALL)
        } else {
            None
        },
    }
}

/// Move the pending maneuver into the live burn state.
fn engage_burn<N, V: Copy>(state: &mut AgcState<N, V>)
    requires
        old(state).pending_maneuver.is_some(),
    ensures
        *final(state) == engage_post(*old(state)),
{
    let m = state.pending_maneuver.take().unwrap();
    state.burn = BurnState { burn_active: true, armed: false, tig: m.tig, target_dv_inertial: Some(m.delta_v) };
    state.servicer_exit = Some(ServicerHook::BurnMonitor);
    state.servicer_active = true;
}

fn set_burn_display<N, V>(state: &mut AgcState<N, V>, prog: u8)
    ensures
        *final(state) == burn_display_post(*old(state), prog),
{
    state.dsky.prog = prog;
    state.dsky.verb = VERB_DISPLAY;
    state.dsky.noun = NOUN_BURN_STATUS;
    state.dsky.flashing = false;
}

/// P40 entry (table shim).
pub fn init_p40<N, V: Copy>(state: &mut AgcState<N, V>) -> (p: JobPriority)
    ensures
        p == PRIORITY,
        *final(state) == p40_init_post(*old(state)),
{
    p40_init(state)
}

/// P41 entry (table shim).
pub fn init_p41<N, V: Copy>(state: &mut AgcState<N, V>) -> (p: JobPriority)
    ensures
        p == PRIORITY,
        *final(state) == p41_init_post(*old(state)),
{
    p41_init(state)
}

/// P40 — SPS burn set-up.  Alarms, each leaving everything else (the
/// pending maneuver included) unchanged: 224 no pending maneuver, 225 TIG
/// past, 226 delta-V under 0.05 m/s, 227 delta-V under 0.5 m/s (an RCS
/// burn).  Otherwise the maneuver becomes the live burn, the DAP starts the
/// attitude maneuver, P40 is selected and V50 N99 asks the crew to arm the
/// engine; the engine stays off.
pub fn p40_init<N, V: Copy>(state: &mut AgcState<N, V>) -> (p: JobPriority)
    ensures
        p == PRIORITY,
        *final(state) == p40_init_post(*old(state)),
{
    match validate_pending_maneuver(state) {
        Some(code) => {
            state.alarm.raise(code);
            return PRIORITY;
        },
        None => {},
    }
    let dv = state.pending_maneuver.unwrap().dv_magnitude_mm_s;
    if dv < SPS_MIN_DV_MM_S {
        state.alarm.raise(ALARM_P40_WRONG_REGIME);
        return PRIORITY;
    }
    engage_burn(state);
    state.dap_state.mode = DapMode::Maneuver;
    state.major_mode = P40_MAJOR_MODE;
    set_burn_display(state, P40_MAJOR_MODE);
    request_v50(state, NOUN_ENGINE_ARM, V50Callback::P40ArmEngine);
    PRIORITY
}

/// PRO in answer to V50 N99: arm the burn (ignition follows at TIG through
/// the DAP ignition check) and switch to the V16 N40 monitor.  The caller pre-warms
/// the TVC filter at the current gimbal trim.
pub fn p40_arm_engine<N, V>(state: &mut AgcState<N, V>)
    ensures
        *final(state) == arm_engine_post(*old(state)),
{
    state.burn.armed = true;
    state.dsky.verb = crate::services::VERB_MONITOR;
    state.dsky.noun = NOUN_BURN_STATUS;
    state.dsky.flashing = false;
}

/// P41 — RCS burn set-up.  Alarms 224, 225 and 226 as for P40, and 228 for
/// a delta-V of 0.5 m/s or more (an SPS burn).  Otherwise the maneuver
/// becomes the live burn, the DAP holds attitude on the RCS and P41 shows
/// V06 N40.  The SPS is never commanded on.
pub fn p41_init<N, V: Copy>(state: &mut AgcState<N, V>) -> (p: JobPriority)
    ensures
        p == PRIORITY,
        *final(state) == p41_init_post(*old(state)),
{
    match validate_pending_maneuver(state) {
        Some(code) => {
            state.alarm.raise(code);
            return PRIORITY;
        },
        None => {},
    }
    let dv = state.pending_maneuver.unwrap().dv_magnitude_mm_s;
    if dv >= SPS_MIN_DV_MM_S {
        state.alarm.raise(ALARM_P41_WRONG_REGIME);
        return PRIORITY;
    }
    engage_burn(state);
    state.dap_state.mode = DapMode::AttitudeHold;
    state.major_mode = P41_MAJOR_MODE;
    set_burn_display(state, P41_MAJOR_MODE);
    PRIORITY
}

/// Every maneuver that passes the shared pre-ignition checks is flown by
/// exactly one of the two thrusting programs: P40 takes it when its
/// delta-V is at least 0.5 m/s and P41 otherwise; the program that takes it
/// arms the live burn with the maneuver's TIG and delta-V.
pub proof fn lemma_burn_regimes_partition<N, V>(s: AgcState<N, V>)
    requires
        validation_alarm(s) is None,
    ensures
        p40_init_post(s).pending_maneuver is None <==> s.pending_maneuver.unwrap().dv_magnitude_mm_s
            >= SPS_MIN_DV_MM_S,
        p41_init_post(s).pending_maneuver is None <==> s.pending_maneuver.unwrap().dv_magnitude_mm_s
            < SPS_MIN_DV_MM_S,
        (p40_init_post(s).pending_maneuver is None) != (p41_init_post(s).pending_maneuver is None),
        p40_init_post(s).pending_maneuver is None ==> p40_init_post(s).burn.tig == s.pending_maneuver.unwrap().tig
            && p40_init_post(s).burn.target_dv_inertial == Some(s.pending_maneuver.unwrap().delta_v),
        p41_init_post(s).pending_maneuver is None ==> p41_init_post(s).burn.tig == s.pending_maneuver.unwrap().tig
            && p41_init_post(s).burn.target_dv_inertial == Some(s.pending_maneuver.unwrap().delta_v),
{
}

/// P40 either refuses the pending maneuver with one of its four alarms,
/// changing nothing else, or engages it; it never lights the engine and
/// leaves the burn unarmed until the crew answers V50 N99.
pub proof fn lemma_p40_refuses_or_waits_for_crew<N, V>(s: AgcState<N, V>)
    ensures
        p40_init_post(s) == with_alarm(s, ALARM_NO_PENDING_MANEUVER) || p40_init_post(s) == with_alarm(
            s,
            ALARM_TIG_IN_PAST,
        ) || p40_init_post(s) == with_alarm(s, ALARM_DV_TOO_SMALL) || p40_init_post(s) == with_alarm(
            s,
            ALARM_P40_WRONG_REGIME,
        ) || (p40_init_post(s).pending_maneuver is None && p40_init_post(s).burn.burn_active
            && !p40_init_post(s).burn.armed && p40_init_post(s).vn.pending_v50 == Some(
            V50Request { noun: NOUN_ENGINE_ARM, callback: V50Callback::P40ArmEngine },
        )),
        p40_init_post(s).engine_thrusting == s.engine_thrusting,
        p41_init_post(s).engine_thrusting == s.engine_thrusting,
{
}

/// Once P40 has engaged a burn and the crew has pressed PRO, the DAP's
/// ignition check lights the engine at any time at or after TIG and at no
/// time before it.
pub proof fn lemma_ignition_waits_for_tig<N, V>(s: AgcState<N, V>, t: Met)
    requires
        validation_alarm(s) is None,
        s.pending_maneuver.unwrap().dv_magnitude_mm_s >= SPS_MIN_DV_MM_S,
        !s.engine_thrusting,
    ensures
        ({
            let armed = proceed_key_post(p40_init_post(s));
            &&& armed.burn.armed
            &&& armed.burn.tig == s.pending_maneuver.unwrap().tig
            &&& ignition_check_post(AgcState { time: t, ..armed }).engine_thrusting
                <==> t.0 >= s.pending_maneuver.unwrap().tig.0
        }),
{
}

/// Whenever P40 or P41 takes the pending maneuver (it is no longer
/// pending), the burn is live and unarmed with the maneuver's TIG, the
/// SERVICER is running and its exit hook is the burn monitor.
pub proof fn lemma_engaged_burn_runs_servicer<N, V>(s: AgcState<N, V>)
    requires
        s.pending_maneuver is Some,
    ensures
        p40_init_post(s).pending_maneuver is None ==> {
            &&& p40_init_post(s).burn.burn_active
            &&& !p40_init_post(s).burn.armed
            &&& p40_init_post(s).burn.tig == s.pending_maneuver.unwrap().tig
            &&& p40_init_post(s).servicer_active
            &&& p40_init_post(s).servicer_exit == Some(ServicerHook::BurnMonitor)
        },
        p41_init_post(s).pending_maneuver is None ==> {
            &&& p41_init_post(s).burn.burn_active
            &&& !p41_init_post(s).burn.armed
            &&& p41_init_post(s).burn.tig == s.pending_maneuver.unwrap().tig
            &&& p41_init_post(s).servicer_active
            &&& p41_init_post(s).servicer_exit == Some(ServicerHook::BurnMonitor)
        },
        p40_init_post(s).pending_maneuver is Some ==> p40_init_post(s).servicer_active == s.servicer_active,
        p41_init_post(s).pending_maneuver is Some ==> p41_init_post(s).servicer_active == s.servicer_active,
{
}

/// The pre-ignition checks in numbers: no pending maneuver is alarm 224, a
/// TIG already past is 225, a delta-V under 0.05 m/s (50 mm/s) is 226; P40
/// refuses a burn under 0.5 m/s (500 mm/s) with 227 and P41 one of at least
/// 0.5 m/s with 228; every other maneuver is taken.
pub proof fn lemma_burn_checks_in_numbers<N, V>(s: AgcState<N, V>)
    ensures
        s.pending_maneuver is None ==> p40_init_post(s) == with_alarm(s, 224) && p41_init_post(s) == with_alarm(s, 224),
        s.pending_maneuver matches Some(m) ==> {
            &&& m.tig.0 < s.time.0 ==> p40_init_post(s) == with_alarm(s, 225) && p41_init_post(s) == with_alarm(s, 225)
            &&& m.tig.0 >= s.time.0 && m.dv_magnitude_mm_s < 50
                ==> p40_init_post(s) == with_alarm(s, 226) && p41_init_post(s) == with_alarm(s, 226)
            &&& m.tig.0 >= s.time.0 && 50 <= m.dv_magnitude_mm_s < 500
                ==> p40_init_post(s) == with_alarm(s, 227) && p41_init_post(s).pending_maneuver is None
                    && p41_init_post(s).major_mode == 41
            &&& m.tig.0 >= s.time.0 && m.dv_magnitude_mm_s >= 500
                ==> p41_init_post(s) == with_alarm(s, 228) && p40_init_post(s).pending_maneuver is None
                    && p40_init_post(s).major_mode == 40
        },
{
}

} // verus!
