//! P29 — Time of longitude: entry prompts for the target longitude (N89);
//! once it is loaded, the input checks, and the V06 N34 display of the
//! crossing time (or the alarm) for the solver's outcome.
//!
//! The time-of-longitude solver itself (conic propagation to the target
//! longitude) is floating-point work of the caller.
use vstd::prelude::*;
use crate::display::{cleared_registers, Registers};
use crate::state::{with_alarm, AgcState, Dsky, VnState};
use crate::types::JobPriority;

verus! {

/// Major mode of P29.
pub const P29_MAJOR_MODE: u8 = 29;
/// Job priority of P29.
pub const P29_PRIORITY: JobPriority = 7;
/// Load verb (V25).
pub const VERB_LOAD: u8 = 25;
/// Target longitude noun (N89).
pub const NOUN_TARGET: u8 = 89;

/// Display verb (V06).
pub const VERB_DISPLAY: u8 = 6;
/// Time-of-event noun (N34).
pub const NOUN_TIME_OF_EVENT: u8 = 34;
/// Alarm 01430: no CSM state vector (epoch zero) or no target longitude.
pub const ALARM_P29_NO_CSM_SV: u16 = 0o1430;
/// Alarm 01431: the trajectory is hyperbolic.
pub const ALARM_P29_HYPERBOLIC: u16 = 0o1431;
/// Alarm 01432: the solver did not converge (or the orbit is degenerate).
pub const ALARM_P29_NO_CONV: u16 = 0o1432;
/// Centiseconds per hour.
pub const CS_PER_HOUR: u32 = 360_000;
/// Centiseconds per minute.
pub const CS_PER_MINUTE: u32 = 6_000;

/// Why the time-of-longitude solver found no crossing.
#[derive(Clone, Copy, Debug, PartialEq, Eq, Structural)]
pub enum P29Error {
    /// The trajectory is hyperbolic.
    Hyperbolic,
    /// The iteration did not converge.
    NoConvergence,
    /// Zero angular momentum (purely radial motion).
    ZeroAngularMomentum,
}

/// The state after P29 entry.
pub open spec fn p29_init_post<N, V>(s: AgcState<N, V>) -> AgcState<N, V> {
    AgcState {
        major_mode: P29_MAJOR_MODE,
        vn: VnState { crew_p29_target: None, ..s.vn },
        dsky: Dsky { prog: P29_MAJOR_MODE, verb: VERB_LOAD, noun: NOUN_TARGET, flashing: true, ..s.dsky },
        ..s
    }
}

/// P29 entry: select P29, discard any earlier N89 entry and flash V25 N89
/// for the target longitude with cleared registers.  Returns the priority
/// and the registers written.
pub fn p29_init<N, V>(state: &mut AgcState<N, V>) -> (p: (JobPriority, Registers))
    ensures
        p == (P29_PRIORITY, cleared_registers()),
        *final(state) == p29_init_post(*old(state)),
{
    state.major_mode = P29_MAJOR_MODE;
    state.dsky.prog = P29_MAJOR_MODE;
    state.vn.crew_p29_target = None;
    state.dsky.verb = VERB_LOAD;
    state.dsky.noun = NOUN_TARGET;
    state.dsky.flashing = true;
    (P29_PRIORITY, Registers { r1: 0, r2: 0, r3: 0 })
}

/// `s` with alarm `code` and the V06 N34 display, not flashing (its
/// registers are cleared).
pub open spec fn p29_alarm_post<N, V>(s: AgcState<N, V>, code: u16) -> AgcState<N, V> {
    let a = with_alarm(s, code);
    AgcState { dsky: Dsky { verb: VERB_DISPLAY, noun: NOUN_TIME_OF_EVENT, flashing: false, ..a.dsky }, ..a }
}

fn p29_alarm<N, V>(state: &mut AgcState<N, V>, code: u16) -> (r: Registers)
    ensures
        *final(state) == p29_alarm_post(*old(state), code),
        r == cleared_registers(),
{
    state.alarm.raise(code);
    state.dsky.verb = VERB_DISPLAY;
    state.dsky.noun = NOUN_TIME_OF_EVENT;
    state.dsky.flashing = false;
    Registers { r1: 0, r2: 0, r3: 0 }
}

/// Whether P29 can solve from `s`: a CSM state vector (non-zero epoch) and
/// a loaded N89 target.
pub open spec fn p29_ready<N, V>(s: AgcState<N, V>) -> bool {
    s.csm_state.epoch.0 != 0 && s.vn.crew_p29_target is Some
}

/// Input checks when the crew has loaded N89.  Returns the loaded target
/// (latitude, longitude, altitude) for the solver when the CSM state vector
/// exists (non-zero epoch) and a target is loaded, changing nothing;
/// otherwise raises alarm 01430 with the V06 N34 display and returns the
/// cleared registers as the error.
pub fn p29_check_inputs<N, V: Copy>(state: &mut AgcState<N, V>) -> (r: Result<V, Registers>)
    ensures
        p29_ready(*old(state)) ==> r == Ok::<V, Registers>(old(state).vn.crew_p29_target.unwrap())
            && *final(state) == *old(state),
        !p29_ready(*old(state)) ==> r == Err::<V, Registers>(cleared_registers())
            && *final(state) == p29_alarm_post(*old(state), ALARM_P29_NO_CSM_SV),
{
    if state.csm_state.epoch.0 == 0 {
        let cleared = p29_alarm(state, ALARM_P29_NO_CSM_SV);
        return Err(cleared);
    }
    match state.vn.crew_p29_target {
        Some(t) => Ok(t),
        None => {
            let cleared = p29_alarm(state, ALARM_P29_NO_CSM_SV);
            Err(cleared)
        },
    }
}

/// Hours, minutes and centiseconds of seconds of a time of `cs`
/// centiseconds.
pub open spec fn hms_of(cs: u32) -> (u32, u32, u32) {
    ((cs / CS_PER_HOUR) as u32, ((cs % CS_PER_HOUR) / CS_PER_MINUTE) as u32, (cs % CS_PER_MINUTE) as u32)
}

/// The state after the solver's outcome is displayed.
pub open spec fn p29_display_post<N, V>(s: AgcState<N, V>, result: Result<u32, P29Error>) -> AgcState<N, V> {
    match result {
        Err(P29Error::Hyperbolic) => p29_alarm_post(s, ALARM_P29_HYPERBOLIC),
        Err(_) => p29_alarm_post(s, ALARM_P29_NO_CONV),
        Ok(_) => AgcState { dsky: Dsky { verb: VERB_DISPLAY, noun: NOUN_TIME_OF_EVENT, flashing: false, ..s.dsky }, ..s },
    }
}

/// The registers showing `(hours, minutes, centiseconds)`.
pub open spec fn hms_registers(hms: (u32, u32, u32)) -> Registers {
    Registers { r1: hms.0 as i32, r2: hms.1 as i32, r3: hms.2 as i32 }
}

/// Display the solver's outcome and return the registers written: for a
/// crossing at `t_cs` centiseconds, V06 N34 with the hours, minutes and
/// centiseconds of seconds in R1, R2 and R3; for a hyperbolic trajectory
/// alarm 01431, for any other failure alarm 01432 (each with the V06 N34
/// display and cleared registers).
pub fn p29_display_result<N, V>(state: &mut AgcState<N, V>, result: Result<u32, P29Error>) -> (r: Registers)
    ensures
        *final(state) == p29_display_post(*old(state), result),
        match result {
            Ok(t_cs) => r == hms_registers(hms_of(t_cs)),
            Err(_) => r == cleared_registers(),
        },
{
    match result {
        Err(P29Error::Hyperbolic) => p29_alarm(state, ALARM_P29_HYPERBOLIC),
        Err(_) => p29_alarm(state, ALARM_P29_NO_CONV),
        Ok(t_cs) => {
            state.dsky.verb = VERB_DISPLAY;
            state.dsky.noun = NOUN_TIME_OF_EVENT;
            state.dsky.flashing = false;
            let hours: u32 = t_cs / CS_PER_HOUR;
            let minutes: u32 = (t_cs % CS_PER_HOUR) / CS_PER_MINUTE;
            let centis: u32 = t_cs % CS_PER_MINUTE;
            assert(hours <= 11931);
            Registers { r1: hours as i32, r2: minutes as i32, r3: centis as i32 }
        },
    }
}

} // verus!
