//! P30 — External delta-V entry as the S30.1 sequence stores it (TIG and
//! DELVSLV), the completion flags of the target computation, and the N42
//! summary display of the rounded apogee, perigee and delta-V.
use vstd::prelude::*;
use crate::display::{shows_three, three_register_display, RegisterDisplay};
use crate::state::{AgcState, Flags};
use crate::types::Met;
use vstd::array::spec_array_update;

verus! {

/// MODREG value of P30.
pub const MODREG_P30: i16 = 30;
/// Noun of the apogee / perigee / delta-V summary display.
pub const N42_NOUN: u8 = 42;
/// Restart group protecting the entry.
pub const RESTART_GROUP: usize = 4;
/// Restart phase set on entry.
pub const RESTART_PHASE: u8 = 4;

/// The state after the external delta-V entry.
pub open spec fn enter_post<N, V>(s: AgcState<N, V>, tig: Met, delta_v_lvlh: V) -> AgcState<N, V> {
    AgcState {
        restart_phase: spec_array_update(s.restart_phase, RESTART_GROUP as int, RESTART_PHASE),
        flags: Flags { updatflg: true, trackflg: true, ..s.flags },
        ext_dv_tig: tig,
        ext_dv_lvlh: Some(delta_v_lvlh),
        modreg: MODREG_P30,
        ..s
    }
}

/// Record TIG and the crew's LVLH delta-V, set UPDATFLG and TRACKFLG,
/// restart group 4 to phase 4 and MODREG to 30.  Returns the value for the
/// PROG display (30).
pub fn enter<N, V>(state: &mut AgcState<N, V>, tig: Met, delta_v_lvlh: V) -> (prog: u8)
    ensures
        prog == 30,
        *final(state) == enter_post(*old(state), tig, delta_v_lvlh),
{
    state.restart_phase[RESTART_GROUP] = RESTART_PHASE;
    state.flags.updatflg = true;
    state.flags.trackflg = true;
    state.ext_dv_tig = tig;
    state.ext_dv_lvlh = Some(delta_v_lvlh);
    state.modreg = MODREG_P30;
    30
}

/// Record that the burn target has been computed from the stored TIG and
/// delta-V: XDELVFLG set, UPDATFLG cleared.
pub fn target_computed<N, V>(state: &mut AgcState<N, V>)
    ensures
        *final(state) == (AgcState {
            flags: Flags { xdelvflg: true, updatflg: false, ..old(state).flags },
            ..*old(state)
        }),
{
    state.flags.xdelvflg = true;
    state.flags.updatflg = false;
}

/// The N42 summary display: R1 the apogee altitude (NM), R2 the perigee
/// altitude (NM), R3 the delta-V magnitude (fps).
pub fn display_summary(hapo_nm: i32, hper_nm: i32, vg_fps: i32) -> (d: RegisterDisplay)
    ensures
        shows_three(d, N42_NOUN, hapo_nm, hper_nm, vg_fps),
{
    three_register_display(N42_NOUN, hapo_nm, hper_nm, vg_fps)
}

} // verus!
