//! P37 — Return-to-Earth targeting (trans-Earth injection).
//!
//! Entry checks the frame and picks the default TIG; the caller propagates
//! the CSM state and solves the return trajectory, then stores the result
//! with [`p37_store_tei`].
use vstd::prelude::*;
use crate::state::{with_alarm, AgcState, Dsky, Maneuver, TargetingMode};
use crate::types::{Frame, JobPriority, Met};

verus! {

/// Major mode of P37.
pub const P37_MAJOR_MODE: u8 = 37;
/// Job priority of P37.
pub const PRIORITY: JobPriority = 16;
/// Alarm: time of flight outside the allowed range.
pub const ALARM_P37_BAD_TOF: u16 = 1410;
/// Alarm: CSM state not in the Moon frame.
pub const ALARM_P37_WRONG_FRAME: u16 = 1411;
/// Default TIG offset from now, centiseconds (30 min).
pub const DEFAULT_TEI_TIG_OFFSET_CS: u32 = 180_000;
/// Default time of flight, centiseconds (60 h).
pub const DEFAULT_TEI_TOF_CS: u32 = 21_600_000;
/// Shortest time of flight, centiseconds (24 h).
pub const MIN_TEI_TOF_CS: u32 = 8_640_000;
/// Longest time of flight, centiseconds (120 h).
pub const MAX_TEI_TOF_CS: u32 = 43_200_000;

/// The default TEI TIG: 30 minutes from now, saturating.
pub open spec fn default_tig(now: Met) -> Met {
    if now.0 + DEFAULT_TEI_TIG_OFFSET_CS <= u32::MAX {
        Met((now.0 + DEFAULT_TEI_TIG_OFFSET_CS) as u32)
    } else {
        Met(u32::MAX)
    }
}

/// The state after P37 entry.
pub open spec fn p37_init_post<N, V>(s: AgcState<N, V>) -> AgcState<N, V> {
    if s.csm_state.frame != Frame::MoonInertial {
        with_alarm(s, ALARM_P37_WRONG_FRAME)
    } else {
        AgcState {
            major_mode: P37_MAJOR_MODE,
            dsky: Dsky { prog: P37_MAJOR_MODE, ..s.dsky },
            pending_maneuver: None,
            ..s
        }
    }
}

/// P37 entry (table shim).
pub fn init<N, V>(state: &mut AgcState<N, V>) -> (r: (JobPriority, Option<Met>))
    ensures
        r.0 == PRIORITY,
        r.1 == (if old(state).csm_state.frame == Frame::MoonInertial { Some(default_tig(old(state).time)) } else { None::<Met> }),
        *final(state) == p37_init_post(*old(state)),
{
    p37_init(state)
}

/// P37 entry.  With the CSM state outside the Moon frame only alarm 1411 is
/// raised.  Otherwise P37 is selected, the pending maneuver dropped, and the
/// default TIG (30 minutes from now) returned for the TEI computation with
/// the default 60-hour time of flight.
pub fn p37_init<N, V>(state: &mut AgcState<N, V>) -> (r: (JobPriority, Option<Met>))
    ensures
        r.0 == PRIORITY,
        r.1 == (if old(state).csm_state.frame == Frame::MoonInertial { Some(default_tig(old(state).time)) } else { None::<Met> }),
        *final(state) == p37_init_post(*old(state)),
{
    if state.csm_state.frame != Frame::MoonInertial {
        state.alarm.raise(ALARM_P37_WRONG_FRAME);
        return (PRIORITY, None);
    }
    state.major_mode = P37_MAJOR_MODE;
    state.dsky.prog = P37_MAJOR_MODE;
    state.pending_maneuver = None;
    let tig = if state.time.0 <= u32::MAX - DEFAULT_TEI_TIG_OFFSET_CS {
        Met(state.time.0 + DEFAULT_TEI_TIG_OFFSET_CS)
    } else {
        Met(u32::MAX)
    };
    (PRIORITY, Some(tig))
}

/// The state after the TEI input checks.
pub open spec fn compute_tei_post<N, V>(s: AgcState<N, V>, tof_cs: u32) -> AgcState<N, V> {
    if tof_cs < MIN_TEI_TOF_CS || tof_cs > MAX_TEI_TOF_CS {
        with_alarm(s, ALARM_P37_BAD_TOF)
    } else if s.csm_state.frame != Frame::MoonInertial {
        with_alarm(s, ALARM_P37_WRONG_FRAME)
    } else {
        s
    }
}

/// Check the inputs of a TEI computation: a time of flight outside 24 to
/// 120 hours raises alarm 1410, a CSM state outside the Moon frame alarm
/// 1411.  Returns whether the computation goes ahead.
pub fn p37_compute_tei<N, V>(state: &mut AgcState<N, V>, tof_cs: u32) -> (ok: bool)
    ensures
        ok == (MIN_TEI_TOF_CS <= tof_cs <= MAX_TEI_TOF_CS && old(state).csm_state.frame == Frame::MoonInertial),
        *final(state) == compute_tei_post(*old(state), tof_cs),
{
    if tof_cs < MIN_TEI_TOF_CS || tof_cs > MAX_TEI_TOF_CS {
        state.alarm.raise(ALARM_P37_BAD_TOF);
        return false;
    }
    if state.csm_state.frame != Frame::MoonInertial {
        state.alarm.raise(ALARM_P37_WRONG_FRAME);
        return false;
    }
    true
}

/// Whole minutes from now to the TIG of the pending maneuver (zero once
/// TIG has passed).
pub open spec fn minutes_to_tig<N, V>(s: AgcState<N, V>) -> Option<u32> {
    match s.pending_maneuver {
        Some(m) => Some((if m.tig.0 >= s.time.0 { (m.tig.0 - s.time.0) as u32 } else { 0 }) / 6000),
        None => None,
    }
}

/// The state after the TEI summary display.
pub open spec fn display_summary_post<N, V>(s: AgcState<N, V>) -> AgcState<N, V> {
    match s.pending_maneuver {
        Some(m) => AgcState { dsky: Dsky { verb: 6, noun: 45, ..s.dsky }, ..s },
        None => s,
    }
}

/// Show the V06 N45 TEI summary of the pending maneuver, if any.  Returns
/// R1, the whole minutes to TIG; the caller writes the delta-V magnitude
/// and the burn duration.
pub fn p37_display_summary<N, V: Copy>(state: &mut AgcState<N, V>) -> (r: Option<u32>)
    ensures
        r == minutes_to_tig(*old(state)),
        *final(state) == display_summary_post(*old(state)),
{
    match state.pending_maneuver {
        Some(m) => {
            let to_go = if m.tig.0 >= state.time.0 { m.tig.0 - state.time.0 } else { 0 };
            state.dsky.verb = 6;
            state.dsky.noun = 45;
            Some(to_go / 6000)
        },
        None => None,
    }
}

/// The state after storing a TEI solution.
pub open spec fn store_tei_post<N, V>(s: AgcState<N, V>, tig: Met, delta_v: V, dv_magnitude_mm_s: u32) -> AgcState<N, V> {
    display_summary_post(
        AgcState {
            pending_maneuver: Some(Maneuver { tig, delta_v, dv_magnitude_mm_s, mode: TargetingMode::ReturnToEarth }),
            ..s
        },
    )
}

/// Store the TEI solution for `tig` as the pending maneuver and show its
/// summary; returns the minutes to TIG.
pub fn p37_store_tei<N, V: Copy>(state: &mut AgcState<N, V>, tig: Met, delta_v: V, dv_magnitude_mm_s: u32) -> (r: Option<u32>)
    ensures
        *final(state) == store_tei_post(*old(state), tig, delta_v, dv_magnitude_mm_s),
        r == Some((if tig.0 >= old(state).time.0 { (tig.0 - old(state).time.0) as u32 } else { 0u32 }) / 6000),
{
    state.pending_maneuver = Some(Maneuver { tig, delta_v, dv_magnitude_mm_s, mode: TargetingMode::ReturnToEarth });
    p37_display_summary(state)
}

} // verus!
