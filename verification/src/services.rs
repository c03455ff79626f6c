//! Crew-interface and autopilot services used by the programs: the V50
//! "please perform" request, the PRO key answering it, and the DAP's
//! ignition check.
use vstd::prelude::*;
use crate::state::{AgcState, BurnState, DapMode, DapState, Dsky, V50Callback, V50Request, VnState};

verus! {

/// Verb of a "please perform" request.
pub const VERB_PLEASE_PERFORM: u8 = 50;
/// Monitor verb shown once the burn is armed (V16).
pub const VERB_MONITOR: u8 = 16;
/// Burn-status noun (N40).
pub const NOUN_BURN_STATUS: u8 = 40;

/// The state after posting a V50 request with `noun` and `callback`.
pub open spec fn request_v50_post<N, V>(s: AgcState<N, V>, noun: u8, callback: V50Callback) -> AgcState<N, V> {
    AgcState {
        vn: VnState { pending_v50: Some(V50Request { noun, callback }), ..s.vn },
        dsky: Dsky { verb: VERB_PLEASE_PERFORM, noun, flashing: true, ..s.dsky },
        ..s
    }
}

/// Post a flashing V50 request with `noun`; `callback` runs when the crew
/// presses PRO.
pub fn request_v50<N, V>(state: &mut AgcState<N, V>, noun: u8, callback: V50Callback)
    ensures
        *final(state) == request_v50_post(*old(state), noun, callback),
{
    state.vn.pending_v50 = Some(V50Request { noun, callback });
    state.dsky.verb = VERB_PLEASE_PERFORM;
    state.dsky.noun = noun;
    state.dsky.flashing = true;
}

/// The state after the P40 engine-arm callback: burn armed, V16 N40
/// monitor shown, flashing stopped.
pub open spec fn arm_engine_post<N, V>(s: AgcState<N, V>) -> AgcState<N, V> {
    AgcState {
        burn: BurnState { armed: true, ..s.burn },
        dsky: Dsky { verb: VERB_MONITOR, noun: NOUN_BURN_STATUS, flashing: false, ..s.dsky },
        ..s
    }
}

/// The state after the PRO key: with a V50 request pending, the request is
/// cleared, flashing stops and its callback runs; otherwise nothing.
pub open spec fn proceed_key_post<N, V>(s: AgcState<N, V>) -> AgcState<N, V> {
    match s.vn.pending_v50 {
        Some(req) => {
            let s1 = AgcState {
                vn: VnState { pending_v50: None, ..s.vn },
                dsky: Dsky { flashing: false, ..s.dsky },
                ..s
            };
            match req.callback {
                V50Callback::P40ArmEngine => arm_engine_post(s1),
            }
        },
        None => s,
    }
}

/// The crew pressed PRO.
pub fn proceed_key<N, V>(state: &mut AgcState<N, V>)
    ensures
        *final(state) == proceed_key_post(*old(state)),
{
    match state.vn.pending_v50 {
        Some(req) => {
            state.vn.pending_v50 = None;
            state.dsky.flashing = false;
            match req.callback {
                V50Callback::P40ArmEngine => crate::programs::p40_p41::p40_arm_engine(state),
            }
        },
        None => {},
    }
}

/// The state after one DAP ignition-check check: an armed burn ignites
/// once the time reaches TIG (engine on, DAP to TVC, armed cleared).
pub open spec fn ignition_check_post<N, V>(s: AgcState<N, V>) -> AgcState<N, V> {
    if s.burn.armed && s.time.0 >= s.burn.tig.0 {
        AgcState {
            engine_thrusting: true,
            dap_state: DapState { mode: DapMode::Tvc },
            burn: BurnState { armed: false, ..s.burn },
            ..s
        }
    } else {
        s
    }
}

/// The DAP's per-cycle ignition check.
pub fn dap_ignition_check<N, V>(state: &mut AgcState<N, V>)
    ensures
        *final(state) == ignition_check_post(*old(state)),
{
    if state.burn.armed && state.time.0 >= state.burn.tig.0 {
        state.engine_thrusting = true;
        state.dap_state.mode = DapMode::Tvc;
        state.burn.armed = false;
    }
}

} // verus!
