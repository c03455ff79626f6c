//! P21 — Ground track determination (V06 N43 latitude/longitude/altitude).
//!
//! The ground-track computation itself is floating-point work of the
//! caller, done when this entry raises no alarm.
use vstd::prelude::*;
use crate::display::{cleared_registers, Registers};
use crate::state::{with_alarm, AgcState, Dsky};
use crate::types::JobPriority;

verus! {

/// Major mode of P21.
pub const P21_MAJOR_MODE: u8 = 21;
/// Job priority of P21.
pub const P21_PRIORITY: JobPriority = 7;
/// Alarm 01420: no valid CSM state vector (epoch zero).
pub const ALARM_NO_CSM_SV: u16 = 0o1420;

/// The state after P21 entry.
pub open spec fn p21_init_post<N, V>(s: AgcState<N, V>) -> AgcState<N, V> {
    let s1 = AgcState { major_mode: P21_MAJOR_MODE, dsky: Dsky { prog: P21_MAJOR_MODE, ..s.dsky }, ..s };
    if s.csm_state.epoch.0 == 0 {
        with_alarm(AgcState { dsky: Dsky { verb: 6, noun: 43, ..s1.dsky }, ..s1 }, ALARM_NO_CSM_SV)
    } else {
        AgcState { dsky: Dsky { verb: 6, noun: 43, flashing: false, ..s1.dsky }, ..s1 }
    }
}

/// The registers P21 entry writes itself: cleared with the alarm; none
/// otherwise (the caller writes the latitude, longitude and altitude).
pub open spec fn p21_init_registers<N, V>(s: AgcState<N, V>) -> Option<Registers> {
    if s.csm_state.epoch.0 == 0 { Some(cleared_registers()) } else { None }
}

/// P21 entry: select P21 and show V06 N43; with a CSM state at epoch zero
/// (never initialised) raise alarm 01420 and clear the registers instead of
/// a computation.  Returns the priority and the registers written.
pub fn p21_init<N, V>(state: &mut AgcState<N, V>) -> (p: (JobPriority, Option<Registers>))
    ensures
        p == (P21_PRIORITY, p21_init_registers(*old(state))),
        *final(state) == p21_init_post(*old(state)),
{
    state.major_mode = P21_MAJOR_MODE;
    state.dsky.prog = P21_MAJOR_MODE;
    if state.csm_state.epoch.0 == 0 {
        state.alarm.raise(ALARM_NO_CSM_SV);
        state.dsky.verb = 6;
        state.dsky.noun = 43;
        return (P21_PRIORITY, Some(Registers { r1: 0, r2: 0, r3: 0 }));
    }
    state.dsky.verb = 6;
    state.dsky.noun = 43;
    state.dsky.flashing = false;
    (P21_PRIORITY, None)
}

} // verus!
