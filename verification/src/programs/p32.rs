//! P32 — Constant delta-height (CDH) targeting.
//!
//! Entry checks the target state and picks the CDH TIG; the caller then
//! solves for the CDH delta-V and hands the result to [`p32_store_cdh`].
use vstd::prelude::*;
use crate::state::{with_alarm, AgcState, Dsky, Maneuver, TargetingMode};
use crate::types::{JobPriority, Met};

verus! {

/// Major mode of P32.
pub const P32_MAJOR_MODE: u8 = 32;
/// Job priority of P32.
pub const P32_PRIORITY: JobPriority = 10;
/// Alarm 01436: no target state.
pub const ALARM_P32_NO_TARGET: u16 = 0o1436;
/// Alarm 01437: degenerate CDH geometry.
pub const ALARM_P32_DEGENERATE: u16 = 0o1437;

/// Why the CDH computation failed.
#[derive(Clone, Copy, Debug, PartialEq, Eq, Structural)]
pub enum CdhError {
    /// Radial separation at CDH below the minimum.
    DegenerateGeometry,
    /// Zero position, or target on an escape trajectory.
    DegenerateState,
}

/// The CDH TIG: the crew-loaded TIG, else the current time.
pub open spec fn cdh_tig_of<N, V>(s: AgcState<N, V>) -> Met {
    match s.vn.pending_tig {
        Some(t) => t,
        None => s.time,
    }
}

/// The state after P32 entry.
pub open spec fn p32_init_post<N, V>(s: AgcState<N, V>, target_present: bool) -> AgcState<N, V> {
    let s1 = AgcState {
        major_mode: P32_MAJOR_MODE,
        dsky: Dsky { prog: P32_MAJOR_MODE, verb: 6, noun: 37, flashing: true, ..s.dsky },
        ..s
    };
    if target_present { s1 } else { with_alarm(s1, ALARM_P32_NO_TARGET) }
}

/// P32 entry (table shim).
pub fn init_p32<N, V>(state: &mut AgcState<N, V>, target_present: bool) -> (r: (JobPriority, Option<Met>))
    ensures
        r.0 == P32_PRIORITY,
        r.1 == (if target_present { Some(cdh_tig_of(*old(state))) } else { None::<Met> }),
        *final(state) == p32_init_post(*old(state), target_present),
{
    p32_init(state, target_present)
}

/// P32 entry.  Selects P32 and flashes V06 N37.  Without a target state
/// (`target_present` false: no position of at least 1 m with a non-zero
/// velocity) alarm 01436 is raised and no TIG is returned;
/// otherwise returns the CDH TIG for the caller's computation.
pub fn p32_init<N, V>(state: &mut AgcState<N, V>, target_present: bool) -> (r: (JobPriority, Option<Met>))
    ensures
        r.0 == P32_PRIORITY,
        r.1 == (if target_present { Some(cdh_tig_of(*old(state))) } else { None::<Met> }),
        *final(state) == p32_init_post(*old(state), target_present),
{
    state.major_mode = P32_MAJOR_MODE;
    state.dsky.prog = P32_MAJOR_MODE;
    state.dsky.verb = 6;
    state.dsky.noun = 37;
    state.dsky.flashing = true;
    if !target_present {
        state.alarm.raise(ALARM_P32_NO_TARGET);
        return (P32_PRIORITY, None);
    }
    let tig = match state.vn.pending_tig {
        Some(t) => t,
        None => state.time,
    };
    (P32_PRIORITY, Some(tig))
}

/// The state after the CDH result for `tig` is stored.
pub open spec fn store_cdh_post<N, V>(s: AgcState<N, V>, tig: Met, result: Result<(V, u32), CdhError>) -> AgcState<N, V> {
    match result {
        Err(_) => with_alarm(s, ALARM_P32_DEGENERATE),
        Ok((dv, mag)) => AgcState {
            pending_maneuver: Some(Maneuver { tig, delta_v: dv, dv_magnitude_mm_s: mag, mode: TargetingMode::CdhBurn }),
            dsky: Dsky { verb: 6, noun: 84, flashing: false, ..s.dsky },
            ..s
        },
    }
}

/// Store the CDH solution for `tig` as the pending CDH maneuver (V06 N84);
/// any failure raises alarm 01437 and leaves the pending maneuver alone.
pub fn p32_store_cdh<N, V>(state: &mut AgcState<N, V>, tig: Met, result: Result<(V, u32), CdhError>)
    ensures
        *final(state) == store_cdh_post(*old(state), tig, result),
{
    match result {
        Err(_) => state.alarm.raise(ALARM_P32_DEGENERATE),
        Ok((dv, mag)) => {
            state.pending_maneuver = Some(Maneuver { tig, delta_v: dv, dv_magnitude_mm_s: mag, mode: TargetingMode::CdhBurn });
            state.dsky.verb = 6;
            state.dsky.noun = 84;
            state.dsky.flashing = false;
        },
    }
}

} // verus!
