//! P00 — CMC idle initialisation (V37E00E and the fresh-start path).
use vstd::prelude::*;
use crate::state::{AgcState, BurnState, DapMode, DapState, Dsky};
use crate::types::JobPriority;

verus! {

/// Job priority of P00.
pub const PRIORITY: JobPriority = 1;

/// The state P00 leaves behind: major mode 0, any SPS burn cancelled, the
/// SERVICER exit hook removed, a running DAP put into attitude hold, and
/// PROG showing 00.
pub open spec fn p00_post<N, V>(s: AgcState<N, V>) -> AgcState<N, V> {
    AgcState {
        major_mode: 0,
        burn: BurnState { burn_active: false, ..s.burn },
        engine_thrusting: false,
        servicer_exit: None,
        dap_state: if s.dap_state.mode != DapMode::Off {
            DapState { mode: DapMode::AttitudeHold }
        } else {
            s.dap_state
        },
        dsky: Dsky { prog: 0, ..s.dsky },
        ..s
    }
}

/// P00 entry: return the computer to idle.
pub fn init<N, V>(state: &mut AgcState<N, V>) -> (p: JobPriority)
    ensures
        p == PRIORITY,
        *final(state) == p00_post(*old(state)),
{
    state.major_mode = 0;
    state.burn.burn_active = false;
    state.engine_thrusting = false;
    state.servicer_exit = None;
    if state.dap_state.mode != DapMode::Off {
        state.dap_state.mode = DapMode::AttitudeHold;
    }
    state.dsky.prog = 0;
    PRIORITY
}

/// P00 stops every burn activity: major mode 0 with PROG 00, no burn,
/// engine off, SERVICER exit hook removed; a DAP that was running in any
/// mode is left holding attitude, and a DAP that was off stays off.
pub proof fn lemma_p00_holds_attitude<N, V>(s: AgcState<N, V>)
    ensures
        p00_post(s).major_mode == 0,
        p00_post(s).dsky.prog == 0,
        !p00_post(s).burn.burn_active,
        !p00_post(s).engine_thrusting,
        p00_post(s).servicer_exit is None,
        s.dap_state.mode != DapMode::Off ==> p00_post(s).dap_state.mode == DapMode::AttitudeHold,
        s.dap_state.mode == DapMode::Off ==> p00_post(s).dap_state.mode == DapMode::Off,
        p00_post(s).pending_maneuver == s.pending_maneuver,
        p00_post(s).waitlist == s.waitlist,
{
}

} // verus!
