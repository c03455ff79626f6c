//! P31 — Coelliptic sequence initiation (CSI) targeting.
//!
//! Entry checks the target state and picks the CSI TIG; the caller then
//! solves for the CSI delta-V and hands the result to [`p31_store_csi`].
use vstd::prelude::*;
use crate::state::{with_alarm, AgcState, Dsky, Maneuver, TargetingMode};
use crate::types::{JobPriority, Met};

verus! {

/// Major mode of P31.
pub const P31_MAJOR_MODE: u8 = 31;
/// Job priority of P31.
pub const P31_PRIORITY: JobPriority = 10;
/// Alarm 01434: no target state.
pub const ALARM_P31_NO_TARGET: u16 = 0o1434;
/// Alarm 01435: CSI iteration did not converge.
pub const ALARM_P31_NOT_CONVERGED: u16 = 0o1435;

/// Why the CSI computation failed.
#[derive(Clone, Copy, Debug, PartialEq, Eq, Structural)]
pub enum CsiError {
    /// Newton iteration did not converge.
    NotConverged,
    /// Target or chaser position is zero.
    DegenerateState,
    /// CSI-to-CDH interval not positive.
    InvalidTimeInterval,
}

/// The CSI TIG: the crew-loaded TIG, else the current time.
pub open spec fn csi_tig_of<N, V>(s: AgcState<N, V>) -> Met {
    match s.vn.pending_tig {
        Some(t) => t,
        None => s.time,
    }
}

/// The state after P31 entry.
pub open spec fn p31_init_post<N, V>(s: AgcState<N, V>, target_present: bool) -> AgcState<N, V> {
    let s1 = AgcState {
        major_mode: P31_MAJOR_MODE,
        dsky: Dsky { prog: P31_MAJOR_MODE, verb: 6, noun: 37, flashing: true, ..s.dsky },
        ..s
    };
    if target_present { s1 } else { with_alarm(s1, ALARM_P31_NO_TARGET) }
}

/// P31 entry (table shim).
pub fn init_p31<N, V>(state: &mut AgcState<N, V>, target_present: bool) -> (r: (JobPriority, Option<Met>))
    ensures
        r.0 == P31_PRIORITY,
        r.1 == (if target_present { Some(csi_tig_of(*old(state))) } else { None::<Met> }),
        *final(state) == p31_init_post(*old(state), target_present),
{
    p31_init(state, target_present)
}

/// P31 entry.  Selects P31 and flashes V06 N37.  `target_present` says
/// whether a target state exists (a position of at least 1 m and a non-zero
/// velocity); without one alarm 01434 is raised and no TIG is returned.
/// Otherwise returns the CSI TIG for the caller's computation.
pub fn p31_init<N, V>(state: &mut AgcState<N, V>, target_present: bool) -> (r: (JobPriority, Option<Met>))
    ensures
        r.0 == P31_PRIORITY,
        r.1 == (if target_present { Some(csi_tig_of(*old(state))) } else { None::<Met> }),
        *final(state) == p31_init_post(*old(state), target_present),
{
    state.major_mode = P31_MAJOR_MODE;
    state.dsky.prog = P31_MAJOR_MODE;
    state.dsky.verb = 6;
    state.dsky.noun = 37;
    state.dsky.flashing = true;
    if !target_present {
        state.alarm.raise(ALARM_P31_NO_TARGET);
        return (P31_PRIORITY, None);
    }
    let tig = match state.vn.pending_tig {
        Some(t) => t,
        None => state.time,
    };
    (P31_PRIORITY, Some(tig))
}

/// The state after the CSI result for `tig` is stored.
pub open spec fn store_csi_post<N, V>(s: AgcState<N, V>, tig: Met, result: Result<(V, u32), CsiError>) -> AgcState<N, V> {
    match result {
        Err(CsiError::NotConverged) => with_alarm(s, ALARM_P31_NOT_CONVERGED),
        Err(_) => with_alarm(s, ALARM_P31_NO_TARGET),
        Ok((dv, mag)) => AgcState {
            pending_maneuver: Some(Maneuver { tig, delta_v: dv, dv_magnitude_mm_s: mag, mode: TargetingMode::CsiBurn }),
            dsky: Dsky { verb: 6, noun: 84, flashing: false, ..s.dsky },
            ..s
        },
    }
}

/// Store the CSI solution for `tig`: the inertial delta-V data and its
/// magnitude in mm/s become the pending CSI maneuver, shown on V06 N84.  A
/// non-converged solution raises alarm 01435, any other failure alarm
/// 01434; the pending maneuver is then unchanged.
pub fn p31_store_csi<N, V>(state: &mut AgcState<N, V>, tig: Met, result: Result<(V, u32), CsiError>)
    ensures
        *final(state) == store_csi_post(*old(state), tig, result),
{
    match result {
        Err(CsiError::NotConverged) => state.alarm.raise(ALARM_P31_NOT_CONVERGED),
        Err(_) => state.alarm.raise(ALARM_P31_NO_TARGET),
        Ok((dv, mag)) => {
            state.pending_maneuver = Some(Maneuver { tig, delta_v: dv, dv_magnitude_mm_s: mag, mode: TargetingMode::CsiBurn });
            state.dsky.verb = 6;
            state.dsky.noun = 84;
            state.dsky.flashing = false;
        },
    }
}

} // verus!
