//! P00 — CMC idle (POOH): MODREG handling of the GOTOPOOH path.
use vstd::prelude::*;
use crate::state::AgcState;
use crate::types::MODREG_NONE;
use vstd::array::spec_array_update;

verus! {

/// MODREG value of P00.
pub const MODREG_P00: i16 = 0;

/// Restart group protecting the GOTOPOOH transition.
pub const RESTART_GROUP: usize = 1;

/// Restart phase set on entry to P00.
pub const RESTART_PHASE: u8 = 4;

/// The state after entering P00: restart group 1 at phase 4, MODREG 0.
pub open spec fn enter_post<N, V>(s: AgcState<N, V>) -> AgcState<N, V> {
    AgcState {
        modreg: MODREG_P00,
        restart_phase: spec_array_update(s.restart_phase, RESTART_GROUP as int, RESTART_PHASE),
        ..s
    }
}

/// Enter the idle state: sets restart group 1 to phase 4 and MODREG to 0.
/// Returns the value the caller shows in the DSKY PROG display (00).
/// Does not touch the Waitlist, the Executive or any hardware state.
pub fn enter<N, V>(state: &mut AgcState<N, V>) -> (prog: u8)
    ensures
        prog == 0,
        *final(state) == enter_post(*old(state)),
{
    state.restart_phase[RESTART_GROUP] = RESTART_PHASE;
    state.modreg = MODREG_P00;
    0
}

/// Entering P00 twice leaves the same state as entering it once, and P00
/// is then active.
pub proof fn lemma_enter_idempotent<N, V>(s: AgcState<N, V>)
    ensures
        enter_post(enter_post(s)) == enter_post(s),
        enter_post(s).modreg == MODREG_P00,
{
    assert(spec_array_update(spec_array_update(s.restart_phase, RESTART_GROUP as int, RESTART_PHASE), RESTART_GROUP as int, RESTART_PHASE) =~= spec_array_update(s.restart_phase, RESTART_GROUP as int, RESTART_PHASE));
}

/// P00 is the active program (MODREG is 0).
pub fn is_active<N, V>(state: &AgcState<N, V>) -> (b: bool)
    ensures
        b == (state.modreg == MODREG_P00),
{
    state.modreg == MODREG_P00
}

/// No program has been entered since the fresh start (MODREG is -1).
pub fn is_uninitialised<N, V>(state: &AgcState<N, V>) -> (b: bool)
    ensures
        b == (state.modreg == MODREG_NONE),
{
    state.modreg == MODREG_NONE
}

} // verus!
