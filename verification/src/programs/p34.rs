//! P34 — Terminal phase midcourse (TPM) targeting.
//!
//! Re-targets the intercept from a new TIG to the arrival epoch of the TPI
//! solution; the caller solves the Lambert problem and hands the result to
//! [`p34_store_intercept`].
use vstd::prelude::*;
use crate::programs::p33::{
    check_stale_target, intercept_alarm, intercept_alarm_code, select_post, stale_check_post,
    InterceptError, ALARM_P33_DEGENERATE, ALARM_P33_NO_TARGET, ALARM_P33_NO_TIG, TPI_MIN_TOF_CS,
    store_tpi_post,
};
use crate::state::{with_alarm, AgcState, Dsky, Maneuver, TargetingMode, VnState};
use crate::types::{JobPriority, Met};

verus! {

/// Major mode of P34.
pub const P34_MAJOR_MODE: u8 = 34;
/// Job priority of P34.
pub const P34_PRIORITY: JobPriority = 10;
/// Alarm 01445: chaser closer to the target than the minimum range.
pub const ALARM_P34_TOO_CLOSE: u16 = 0o1445;

/// The state after P34 entry.
pub open spec fn p34_init_post<N, V>(s: AgcState<N, V>, target_present: bool, range_sufficient: bool) -> AgcState<N, V> {
    if !target_present {
        with_alarm(s, ALARM_P33_NO_TARGET)
    } else {
        match (s.tpi_arrival_epoch, s.vn.pending_tig) {
            (None, _) => with_alarm(s, ALARM_P33_NO_TIG),
            (Some(arrival), None) => with_alarm(s, ALARM_P33_NO_TIG),
            (Some(arrival), Some(tig)) => {
                let s1 = select_post(
                    stale_check_post(AgcState { vn: VnState { pending_tig: None, ..s.vn }, ..s }, tig),
                    P34_MAJOR_MODE,
                );
                if (arrival.0 as int) - (tig.0 as int) < TPI_MIN_TOF_CS {
                    with_alarm(s1, ALARM_P33_DEGENERATE)
                } else if !range_sufficient {
                    with_alarm(s1, ALARM_P34_TOO_CLOSE)
                } else if tig.0 < s.csm_state.epoch.0 {
                    with_alarm(s1, ALARM_P33_DEGENERATE)
                } else {
                    s1
                }
            },
        }
    }
}

/// The (TIG, arrival epoch) P34 entry hands to the caller, if any.
pub open spec fn p34_init_times<N, V>(s: AgcState<N, V>, target_present: bool, range_sufficient: bool) -> Option<(Met, Met)> {
    if !target_present {
        None
    } else {
        match (s.tpi_arrival_epoch, s.vn.pending_tig) {
            (Some(arrival), Some(tig)) => if (arrival.0 as int) - (tig.0 as int) < TPI_MIN_TOF_CS || !range_sufficient
                || tig.0 < s.csm_state.epoch.0 {
                None
            } else {
                Some((tig, arrival))
            },
            _ => None,
        }
    }
}

/// P34 entry.  Without a target state: alarm 01440.  Without a TPI arrival
/// epoch (P33 never solved) or without a loaded TIG: alarm 01441 (the
/// loaded TIG is consumed only when an arrival epoch exists).  A stale
/// target raises the warning 01442.  P34 is then selected with V06 N37
/// flashing, and the entry stops with 01443 when less than 60 s remain from
/// TIG to arrival, with 01445 when the chaser is within the minimum range of
/// the target (`range_sufficient` false), and with 01443 when TIG precedes
/// the CSM state epoch.  Otherwise returns TIG and the arrival epoch.
pub fn p34_init<N, V>(state: &mut AgcState<N, V>, target_present: bool, range_sufficient: bool) -> (r: (JobPriority, Option<(Met, Met)>))
    ensures
        r.0 == P34_PRIORITY,
        r.1 == p34_init_times(*old(state), target_present, range_sufficient),
        *final(state) == p34_init_post(*old(state), target_present, range_sufficient),
{
    if !target_present {
        state.alarm.raise(ALARM_P33_NO_TARGET);
        return (P34_PRIORITY, None);
    }
    let arrival = match state.tpi_arrival_epoch {
        Some(a) => a,
        None => {
            state.alarm.raise(ALARM_P33_NO_TIG);
            return (P34_PRIORITY, None);
        },
    };
    let tig = match state.vn.pending_tig.take() {
        Some(t) => t,
        None => {
            state.alarm.raise(ALARM_P33_NO_TIG);
            return (P34_PRIORITY, None);
        },
    };
    check_stale_target(state, tig);
    state.major_mode = P34_MAJOR_MODE;
    state.dsky.prog = P34_MAJOR_MODE;
    state.dsky.verb = 6;
    state.dsky.noun = 37;
    state.dsky.flashing = true;
    if arrival.0 < tig.0 || arrival.0 - tig.0 < TPI_MIN_TOF_CS {
        state.alarm.raise(ALARM_P33_DEGENERATE);
        return (P34_PRIORITY, None);
    }
    if !range_sufficient {
        state.alarm.raise(ALARM_P34_TOO_CLOSE);
        return (P34_PRIORITY, None);
    }
    if tig.0 < state.csm_state.epoch.0 {
        state.alarm.raise(ALARM_P33_DEGENERATE);
        return (P34_PRIORITY, None);
    }
    (P34_PRIORITY, Some((tig, arrival)))
}

/// The state after the TPM solution for `tig` is stored.
pub open spec fn store_tpm_post<N, V>(s: AgcState<N, V>, tig: Met, result: Result<(V, u32), InterceptError>) -> AgcState<N, V> {
    match result {
        Err(e) => with_alarm(s, intercept_alarm(e)),
        Ok((dv, mag)) => AgcState {
            pending_maneuver: Some(Maneuver { tig, delta_v: dv, dv_magnitude_mm_s: mag, mode: TargetingMode::TpmBurn }),
            dsky: Dsky { verb: 6, noun: 81, flashing: false, ..s.dsky },
            ..s
        },
    }
}

/// Store the TPM solution for `tig` as the pending TPM maneuver (V06 N81);
/// the TPI arrival epoch is kept.  Failures raise the same alarms as P33.
pub fn p34_store_intercept<N, V>(state: &mut AgcState<N, V>, tig: Met, result: Result<(V, u32), InterceptError>)
    ensures
        *final(state) == store_tpm_post(*old(state), tig, result),
{
    match result {
        Err(e) => state.alarm.raise(intercept_alarm_code(e)),
        Ok((dv, mag)) => {
            state.pending_maneuver = Some(Maneuver { tig, delta_v: dv, dv_magnitude_mm_s: mag, mode: TargetingMode::TpmBurn });
            state.dsky.verb = 6;
            state.dsky.noun = 81;
            state.dsky.flashing = false;
        },
    }
}

/// P34 retargets to the arrival of the last TPI solution and keeps it.
/// After P33 stored a solution for `tpi_tig` with transfer time `dt_tpi_cs`,
/// P34 entered with a target state, the chaser outside the minimum range
/// and a loaded TIG `tig` not before the CSM state epoch and at least 60 s
/// before that arrival, hands back `tig` with the arrival epoch `tpi_tig` +
/// `dt_tpi_cs`; storing the TPM solution, whatever its outcome, leaves that
/// arrival epoch in place.
pub proof fn lemma_tpm_keeps_tpi_arrival<N, V>(
    s: AgcState<N, V>,
    tpi_tig: Met,
    dt_tpi_cs: u32,
    tpi_dv: V,
    tpi_mag: u32,
    tig: Met,
    tpm: Result<(V, u32), InterceptError>,
)
    requires
        tpi_tig.0 + dt_tpi_cs <= u32::MAX,
        tig.0 >= s.csm_state.epoch.0,
        tpi_tig.0 + dt_tpi_cs - tig.0 >= TPI_MIN_TOF_CS,
    ensures
        ({
            let arrival = Met((tpi_tig.0 + dt_tpi_cs) as u32);
            let a = store_tpi_post(s, tpi_tig, dt_tpi_cs, Ok((tpi_dv, tpi_mag)));
            let loaded = AgcState { vn: VnState { pending_tig: Some(tig), ..a.vn }, ..a };
            &&& p34_init_times(loaded, true, true) == Some((tig, arrival))
            &&& store_tpm_post(p34_init_post(loaded, true, true), tig, tpm).tpi_arrival_epoch == Some(arrival)
        }),
{
}

} // verus!
