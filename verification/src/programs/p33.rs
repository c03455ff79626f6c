//! P33 — Terminal phase initiation (TPI) targeting.
//!
//! Entry checks the target state and the crew-loaded TIG; the caller then
//! solves the Lambert intercept for the transfer time (600 s by default)
//! and hands the result to [`p33_store_intercept`].
use vstd::prelude::*;
use crate::state::{with_alarm, AgcState, Dsky, Maneuver, TargetingMode, VnState};
use crate::types::{JobPriority, Met};

verus! {

/// Major mode of P33.
pub const P33_MAJOR_MODE: u8 = 33;
/// Job priority of P33.
pub const P33_PRIORITY: JobPriority = 10;
/// Default TPI transfer time, centiseconds (600 s).
pub const TPI_DEFAULT_TRANSFER_TIME_CS: u32 = 60_000;
/// Shortest allowed transfer time, centiseconds (60 s).
pub const TPI_MIN_TOF_CS: u32 = 6_000;
/// Target states older than this at TIG are stale, centiseconds (30 min).
pub const TPI_STALE_TARGET_CS: u32 = 180_000;
/// Alarm 01440: no target state.
pub const ALARM_P33_NO_TARGET: u16 = 0o1440;
/// Alarm 01441: no TIG loaded (or, for P34, no TPI solution).
pub const ALARM_P33_NO_TIG: u16 = 0o1441;
/// Alarm 01442: target state stale (warning only).
pub const ALARM_P33_STALE_TARGET: u16 = 0o1442;
/// Alarm 01443: degenerate geometry or invalid time interval.
pub const ALARM_P33_DEGENERATE: u16 = 0o1443;
/// Alarm 01444: Lambert solution failed.
pub const ALARM_P33_LAMBERT: u16 = 0o1444;

/// Why a Lambert intercept computation failed.
#[derive(Clone, Copy, Debug, PartialEq, Eq, Structural)]
pub enum InterceptError {
    /// Chaser or target position zero or below orbit.
    DegenerateState,
    /// Transfer time too short or not positive.
    InvalidTimeInterval,
    /// Departure and arrival points too close.
    DegenerateGeometry,
    /// Departure and arrival anti-parallel (no transfer plane).
    AntiParallelVectors,
    /// The Lambert iteration did not converge.
    LambertNotConverged,
}

/// The alarm reported for a failed intercept computation.
pub open spec fn intercept_alarm(e: InterceptError) -> u16 {
    match e {
        InterceptError::DegenerateState => ALARM_P33_NO_TARGET,
        InterceptError::InvalidTimeInterval => ALARM_P33_DEGENERATE,
        InterceptError::DegenerateGeometry => ALARM_P33_DEGENERATE,
        InterceptError::AntiParallelVectors => ALARM_P33_LAMBERT,
        InterceptError::LambertNotConverged => ALARM_P33_LAMBERT,
    }
}

/// The alarm code of a failed intercept computation.
pub fn intercept_alarm_code(e: InterceptError) -> (c: u16)
    ensures
        c == intercept_alarm(e),
{
    match e {
        InterceptError::DegenerateState => ALARM_P33_NO_TARGET,
        InterceptError::InvalidTimeInterval => ALARM_P33_DEGENERATE,
        InterceptError::DegenerateGeometry => ALARM_P33_DEGENERATE,
        InterceptError::AntiParallelVectors => ALARM_P33_LAMBERT,
        InterceptError::LambertNotConverged => ALARM_P33_LAMBERT,
    }
}

/// The target state is stale at `tig`: more than 30 minutes older.
pub open spec fn target_stale(target_epoch: Met, tig: Met) -> bool {
    tig.0 > target_epoch.0 && tig.0 - target_epoch.0 > TPI_STALE_TARGET_CS
}

/// `s` with alarm 01442 when the target is stale at `tig`.
pub open spec fn stale_check_post<N, V>(s: AgcState<N, V>, tig: Met) -> AgcState<N, V> {
    if target_stale(s.rendezvous_nav.epoch, tig) { with_alarm(s, ALARM_P33_STALE_TARGET) } else { s }
}

/// Raise the stale-target warning if the target state is stale at `tig`.
pub fn check_stale_target<N, V>(state: &mut AgcState<N, V>, tig: Met)
    ensures
        *final(state) == stale_check_post(*old(state), tig),
{
    if tig.0 > state.rendezvous_nav.epoch.0 && tig.0 - state.rendezvous_nav.epoch.0 > TPI_STALE_TARGET_CS {
        state.alarm.raise(ALARM_P33_STALE_TARGET);
    }
}

/// `s` with TPI/TPM program `mode` selected and V06 N37 flashing.
pub open spec fn select_post<N, V>(s: AgcState<N, V>, mode: u8) -> AgcState<N, V> {
    AgcState { major_mode: mode, dsky: Dsky { prog: mode, verb: 6, noun: 37, flashing: true, ..s.dsky }, ..s }
}

/// The state after P33 entry.
pub open spec fn p33_init_post<N, V>(s: AgcState<N, V>, target_present: bool) -> AgcState<N, V> {
    if !target_present {
        with_alarm(s, ALARM_P33_NO_TARGET)
    } else {
        match s.vn.pending_tig {
            None => with_alarm(s, ALARM_P33_NO_TIG),
            Some(tig) => {
                let s1 = select_post(
                    stale_check_post(AgcState { vn: VnState { pending_tig: None, ..s.vn }, ..s }, tig),
                    P33_MAJOR_MODE,
                );
                if tig.0 < s.csm_state.epoch.0 { with_alarm(s1, ALARM_P33_DEGENERATE) } else { s1 }
            },
        }
    }
}

/// The TIG P33 entry hands to the caller's computation, if any.
pub open spec fn p33_init_tig<N, V>(s: AgcState<N, V>, target_present: bool) -> Option<Met> {
    if !target_present {
        None
    } else {
        match s.vn.pending_tig {
            None => None,
            Some(tig) => if tig.0 < s.csm_state.epoch.0 { None } else { Some(tig) },
        }
    }
}

/// P33 entry.  Without a target state: alarm 01440.  The crew-loaded TIG is
/// consumed; without one: alarm 01441.  A target state more than 30 minutes
/// older than TIG raises the warning 01442 and carries on.  P33 is then
/// selected with V06 N37 flashing; a TIG before the CSM state epoch raises
/// 01443.  Returns the TIG for the intercept computation when none of the
/// stopping alarms was raised.
pub fn p33_init<N, V>(state: &mut AgcState<N, V>, target_present: bool) -> (r: (JobPriority, Option<Met>))
    ensures
        r.0 == P33_PRIORITY,
        r.1 == p33_init_tig(*old(state), target_present),
        *final(state) == p33_init_post(*old(state), target_present),
{
    if !target_present {
        state.alarm.raise(ALARM_P33_NO_TARGET);
        return (P33_PRIORITY, None);
    }
    let tig = match state.vn.pending_tig.take() {
        Some(t) => t,
        None => {
            state.alarm.raise(ALARM_P33_NO_TIG);
            return (P33_PRIORITY, None);
        },
    };
    check_stale_target(state, tig);
    state.major_mode = P33_MAJOR_MODE;
    state.dsky.prog = P33_MAJOR_MODE;
    state.dsky.verb = 6;
    state.dsky.noun = 37;
    state.dsky.flashing = true;
    if tig.0 < state.csm_state.epoch.0 {
        state.alarm.raise(ALARM_P33_DEGENERATE);
        return (P33_PRIORITY, None);
    }
    (P33_PRIORITY, Some(tig))
}

/// The state after the TPI solution for `tig` is stored.
pub open spec fn store_tpi_post<N, V>(
    s: AgcState<N, V>,
    tig: Met,
    dt_tpi_cs: u32,
    result: Result<(V, u32), InterceptError>,
) -> AgcState<N, V> {
    match result {
        Err(e) => with_alarm(s, intercept_alarm(e)),
        Ok((dv, mag)) => AgcState {
            pending_maneuver: Some(Maneuver { tig, delta_v: dv, dv_magnitude_mm_s: mag, mode: TargetingMode::TpiBurn }),
            tpi_arrival_epoch: Some(Met((tig.0 + dt_tpi_cs) as u32)),
            dsky: Dsky { verb: 6, noun: 81, flashing: false, ..s.dsky },
            ..s
        },
    }
}

/// Store the TPI solution for `tig` and the transfer time `dt_tpi_cs`: the
/// pending TPI maneuver, the arrival epoch (TIG plus the transfer time) for
/// P34, and V06 N81.  A failure raises 01440
/// (degenerate state), 01443 (bad interval or geometry) or 01444 (Lambert
/// failure) and leaves the pending maneuver and arrival epoch unchanged.
pub fn p33_store_intercept<N, V>(
    state: &mut AgcState<N, V>,
    tig: Met,
    dt_tpi_cs: u32,
    result: Result<(V, u32), InterceptError>,
)
    requires
        tig.0 + dt_tpi_cs <= u32::MAX,
    ensures
        *final(state) == store_tpi_post(*old(state), tig, dt_tpi_cs, result),
{
    match result {
        Err(e) => state.alarm.raise(intercept_alarm_code(e)),
        Ok((dv, mag)) => {
            state.pending_maneuver = Some(Maneuver { tig, delta_v: dv, dv_magnitude_mm_s: mag, mode: TargetingMode::TpiBurn });
            state.tpi_arrival_epoch = Some(Met(tig.0 + dt_tpi_cs));
            state.dsky.verb = 6;
            state.dsky.noun = 81;
            state.dsky.flashing = false;
        },
    }
}

} // verus!
