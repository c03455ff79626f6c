//! P11 — Earth orbit insertion: the liftoff entry sequence and exit.
//!
//! The prelaunch REFSMMAT built from the CDU angles and the N62 quantities
//! (velocity, altitude rate, altitude) are floating-point work done by the
//! caller; this module performs the bookkeeping of the entry sequence and
//! encodes the N62 display from the rounded quantities.
use vstd::prelude::*;
use crate::display::{shows_three, three_register_display, RegisterDisplay};
use crate::state::{AgcState, Flags};
use crate::types::Met;
use vstd::array::spec_array_update;

verus! {

/// MODREG value of P11.
pub const MODREG_P11: i16 = 11;
/// Noun of the P11 velocity / altitude-rate / altitude display.
pub const N62_NOUN: u8 = 62;
/// Restart group protecting the TEPHEM correction.
pub const RESTART_GROUP: usize = 3;
/// Restart phase set on entry.
pub const RESTART_PHASE: u8 = 5;

/// The state after the P11 entry sequence: restart group 3 at phase 5,
/// liftoff time recorded from the navigation state vector's time tag,
/// TEPHEM advanced by it,
/// MODREG 11, REFSMMAT flagged valid, average-G exit hook installed.
pub open spec fn enter_post<N, V>(s: AgcState<N, V>) -> AgcState<N, V> {
    AgcState {
        restart_phase: spec_array_update(s.restart_phase, RESTART_GROUP as int, RESTART_PHASE),
        tliftoff: s.sv@.2,
        tephem: (s.tephem + s.sv@.2.0) as u64,
        modreg: MODREG_P11,
        flags: Flags { refsmflg: true, ..s.flags },
        avgexit_active: true,
        ..s
    }
}

/// P11 entry sequence.  Returns the value for the DSKY PROG display (11).
pub fn enter<N, V>(state: &mut AgcState<N, V>) -> (prog: u8)
    requires
        old(state).tephem + old(state).sv@.2.0 <= u64::MAX,
    ensures
        prog == 11,
        *final(state) == enter_post(*old(state)),
{
    state.restart_phase[RESTART_GROUP] = RESTART_PHASE;
    let now: Met = state.sv.time();
    state.tliftoff = now;
    state.tephem = state.tephem + now.0 as u64;
    state.modreg = MODREG_P11;
    state.flags.refsmflg = true;
    state.avgexit_active = true;
    11
}

/// Exit P11: remove the average-G exit hook; MODREG is left to V37.
pub fn exit<N, V>(state: &mut AgcState<N, V>)
    ensures
        *final(state) == (AgcState { avgexit_active: false, ..*old(state) }),
{
    state.avgexit_active = false;
}

/// One average-G cycle of the P11 display.  With P11 active (MODREG 11),
/// the N62 display with R1 the inertial velocity (fps), R2 the altitude
/// rate (fps) and R3 the altitude above the pad radius (NM); otherwise no
/// display at all.  The state is not changed.
pub fn tick<N, V>(state: &AgcState<N, V>, vi_fps: i32, hdot_fps: i32, altitude_nm: i32) -> (d: Option<RegisterDisplay>)
    ensures
        state.modreg != MODREG_P11 ==> d is None,
        state.modreg == MODREG_P11 ==> d is Some && shows_three(d.unwrap(), N62_NOUN, vi_fps, hdot_fps, altitude_nm),
{
    if state.modreg != MODREG_P11 {
        return None;
    }
    Some(three_register_display(N62_NOUN, vi_fps, hdot_fps, altitude_nm))
}

} // verus!
