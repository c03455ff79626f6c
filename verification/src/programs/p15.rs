//! P15 — Trans-lunar injection monitor (V16 N44, shared with P11).
//!
//! The display values come from the conic elements of the CSM state; the
//! one decision taken on them — whether the orbit is hyperbolic — is an
//! argument here.
use vstd::prelude::*;
use crate::state::{AgcState, AlarmState, Dsky, ServicerHook};
use crate::types::{Frame, JobPriority};

verus! {

/// Major mode of P15.
pub const P15_MAJOR_MODE: u8 = 15;
/// Job priority of the monitor.
pub const PRIORITY: JobPriority = 6;
/// Monitor verb (V16).
pub const VERB_MONITOR: u8 = 16;
/// Apogee/perigee/TFF noun (N44).
pub const NOUN_APO_PERI: u8 = 44;
/// Alarm: hyperbolic orbit (no apogee to show).
pub const ALARM_HYPERBOLIC: u16 = 237;
/// Alarm: CSM state not in the Earth frame.
pub const ALARM_WRONG_FRAME: u16 = 236;

/// The state after one display refresh: alarm 237 when the orbit is
/// hyperbolic, otherwise unchanged (the caller writes the three register
/// values).
pub open spec fn p15_update_post<N, V>(s: AgcState<N, V>, hyperbolic: bool) -> AgcState<N, V> {
    if hyperbolic {
        AgcState { alarm: AlarmState { code: ALARM_HYPERBOLIC, lit: true }, ..s }
    } else {
        s
    }
}

/// The state after P15 entry.
pub open spec fn init_post<N, V>(s: AgcState<N, V>, hyperbolic: bool) -> AgcState<N, V> {
    if s.csm_state.frame != Frame::EarthInertial {
        AgcState { alarm: AlarmState { code: ALARM_WRONG_FRAME, lit: true }, ..s }
    } else {
        p15_update_post(
            AgcState {
                major_mode: P15_MAJOR_MODE,
                dsky: Dsky { prog: P15_MAJOR_MODE, verb: VERB_MONITOR, noun: NOUN_APO_PERI, flashing: false, ..s.dsky },
                servicer_exit: Some(ServicerHook::P15Monitor),
                ..s
            },
            hyperbolic,
        )
    }
}

/// P15 entry.  With the CSM state in the Earth frame: select P15, show
/// V16 N44, install the SERVICER monitor hook and refresh once
/// (`hyperbolic` tells whether the current orbit is hyperbolic).  In any
/// other frame only alarm 236 is raised.
pub fn init<N, V>(state: &mut AgcState<N, V>, hyperbolic: bool) -> (p: JobPriority)
    ensures
        p == PRIORITY,
        *final(state) == init_post(*old(state), hyperbolic),
{
    if state.csm_state.frame != Frame::EarthInertial {
        state.alarm.raise(ALARM_WRONG_FRAME);
        return PRIORITY;
    }
    state.major_mode = P15_MAJOR_MODE;
    state.dsky.prog = P15_MAJOR_MODE;
    state.dsky.verb = VERB_MONITOR;
    state.dsky.noun = NOUN_APO_PERI;
    state.dsky.flashing = false;
    state.servicer_exit = Some(ServicerHook::P15Monitor);
    p15_update(state, hyperbolic);
    PRIORITY
}

/// Display refresh: alarm 237 on a hyperbolic orbit, nothing else here.
pub fn p15_update<N, V>(state: &mut AgcState<N, V>, hyperbolic: bool)
    ensures
        *final(state) == p15_update_post(*old(state), hyperbolic),
{
    if hyperbolic {
        state.alarm.raise(ALARM_HYPERBOLIC);
    }
}

/// SERVICER exit hook: refresh the display.
pub fn p15_servicer_exit<N, V>(state: &mut AgcState<N, V>, hyperbolic: bool)
    ensures
        *final(state) == p15_update_post(*old(state), hyperbolic),
{
    p15_update(state, hyperbolic);
}

} // verus!
