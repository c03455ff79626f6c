//! P06 — CMC power-down (standby).
use vstd::prelude::*;
use crate::state::{AgcState, BurnState, DapMode, DapState, Dsky};
use crate::types::JobPriority;

verus! {

/// Major mode of P06.
pub const P06_MAJOR_MODE: u8 = 6;
/// Job priority of P06.
pub const PRIORITY: JobPriority = 1;
/// Verb shown in standby (V37: the only valid next entry).
pub const VERB_STANDBY: u8 = 37;

/// The state P06 leaves behind: SERVICER stopped and unhooked, DAP off, no
/// pending maneuver, no burn, engine off, STBY lit, PROG 06 with V37 N00.
pub open spec fn p06_post<N, V>(s: AgcState<N, V>) -> AgcState<N, V> {
    AgcState {
        servicer_active: false,
        servicer_exit: None,
        dap_state: DapState { mode: DapMode::Off },
        pending_maneuver: None,
        burn: BurnState { burn_active: false, ..s.burn },
        engine_thrusting: false,
        dsky: Dsky { prog: P06_MAJOR_MODE, verb: VERB_STANDBY, noun: 0, flashing: false, stby: true, comp_acty: false },
        major_mode: P06_MAJOR_MODE,
        ..s
    }
}

/// P06 entry: quiesce every activity and put the CMC in standby.
pub fn init<N, V>(state: &mut AgcState<N, V>) -> (p: JobPriority)
    ensures
        p == PRIORITY,
        *final(state) == p06_post(*old(state)),
{
    state.servicer_active = false;
    state.servicer_exit = None;
    state.dap_state.mode = DapMode::Off;
    state.pending_maneuver = None;
    state.burn.burn_active = false;
    state.engine_thrusting = false;
    state.dsky.stby = true;
    state.dsky.prog = P06_MAJOR_MODE;
    state.dsky.verb = VERB_STANDBY;
    state.dsky.noun = 0;
    state.dsky.flashing = false;
    state.dsky.comp_acty = false;
    state.major_mode = P06_MAJOR_MODE;
    PRIORITY
}

/// Entering P06 a second time changes nothing.
pub proof fn lemma_p06_idempotent<N, V>(s: AgcState<N, V>)
    ensures
        p06_post(p06_post(s)) == p06_post(s),
{
}

/// After P06 nothing runs: DAP off, SERVICER stopped and unhooked, no
/// pending maneuver, no burn, engine off, STBY lit and major mode 6,
/// whatever was running before.
pub proof fn lemma_p06_stops_everything<N, V>(s: AgcState<N, V>)
    ensures
        p06_post(s).dap_state.mode == DapMode::Off,
        !p06_post(s).servicer_active,
        p06_post(s).servicer_exit is None,
        p06_post(s).pending_maneuver is None,
        !p06_post(s).burn.burn_active,
        !p06_post(s).engine_thrusting,
        p06_post(s).dsky.stby,
        p06_post(s).major_mode == 6,
{
}

} // verus!
