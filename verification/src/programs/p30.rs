//! P30 — External delta-V targeting: entry, loading of the uplinked
//! maneuver, and the N45 burn summary.
use vstd::prelude::*;
use crate::state::{with_alarm, AgcState, Dsky, Maneuver, TargetingMode};
use crate::types::{JobPriority, Met};

verus! {

/// Major mode of P30.
pub const P30_MAJOR_MODE: u8 = 30;
/// Job priority of the P30 targeting job.
pub const P30_JOB_PRIORITY: JobPriority = 4;
/// Burn summary noun (N45).
pub const P30_NOUN_BURN_SUMMARY: u8 = 45;
/// LVLH delta-V load noun (N81).
pub const P30_NOUN_DV_LVLH: u8 = 81;
/// TIG load noun (N33).
pub const P30_NOUN_TIG: u8 = 33;
/// Display verb (V06).
pub const VERB_DISPLAY_OCT: u8 = 6;
/// Alarm: TIG already past.
pub const ALARM_TIG_IN_PAST: u16 = 210;
/// 35 minutes, centiseconds.
pub const THIRTY_FIVE_MIN_CS: u32 = 210_000;

/// The state after P30 entry.
pub open spec fn p30_init_post<N, V>(s: AgcState<N, V>) -> AgcState<N, V> {
    AgcState {
        major_mode: P30_MAJOR_MODE,
        dsky: Dsky { prog: P30_MAJOR_MODE, verb: VERB_DISPLAY_OCT, noun: P30_NOUN_TIG, flashing: true, ..s.dsky },
        pending_maneuver: None,
        ..s
    }
}

/// P30 entry (table shim).
pub fn init<N, V>(state: &mut AgcState<N, V>) -> (p: JobPriority)
    ensures
        p == P30_JOB_PRIORITY,
        *final(state) == p30_init_post(*old(state)),
{
    p30_init(state)
}

/// P30 entry: select P30, flash V06 N33 for the TIG, drop any stale
/// pending maneuver.
pub fn p30_init<N, V>(state: &mut AgcState<N, V>) -> (p: JobPriority)
    ensures
        p == P30_JOB_PRIORITY,
        *final(state) == p30_init_post(*old(state)),
{
    state.major_mode = P30_MAJOR_MODE;
    state.dsky.prog = P30_MAJOR_MODE;
    state.dsky.verb = VERB_DISPLAY_OCT;
    state.dsky.noun = P30_NOUN_TIG;
    state.dsky.flashing = true;
    state.pending_maneuver = None;
    P30_JOB_PRIORITY
}

/// The N45 summary registers for the pending maneuver of `s`: TIG minus 35
/// minutes (zero when TIG is earlier) and TIG, centiseconds.
pub open spec fn summary_of<N, V>(s: AgcState<N, V>) -> Option<(u32, u32)> {
    match s.pending_maneuver {
        Some(m) => Some((if m.tig.0 >= THIRTY_FIVE_MIN_CS { (m.tig.0 - THIRTY_FIVE_MIN_CS) as u32 } else { 0 }, m.tig.0)),
        None => None,
    }
}

/// The state after the summary display.
pub open spec fn summary_post<N, V>(s: AgcState<N, V>) -> AgcState<N, V> {
    match s.pending_maneuver {
        Some(m) => AgcState {
            dsky: Dsky { verb: VERB_DISPLAY_OCT, noun: P30_NOUN_BURN_SUMMARY, flashing: false, ..s.dsky },
            ..s
        },
        None => s,
    }
}

/// Show the N45 burn summary of the pending maneuver, if there is one.
/// Returns the values for R2 and R3 (TIG minus 35 minutes, TIG); the caller
/// writes the delta-V magnitude into R1.
pub fn p30_display_summary<N, V: Copy>(state: &mut AgcState<N, V>) -> (r: Option<(u32, u32)>)
    ensures
        r == summary_of(*old(state)),
        *final(state) == summary_post(*old(state)),
{
    match state.pending_maneuver {
        Some(m) => {
            let tig_minus_35 = if m.tig.0 >= THIRTY_FIVE_MIN_CS { m.tig.0 - THIRTY_FIVE_MIN_CS } else { 0 };
            state.dsky.verb = VERB_DISPLAY_OCT;
            state.dsky.noun = P30_NOUN_BURN_SUMMARY;
            state.dsky.flashing = false;
            Some((tig_minus_35, m.tig.0))
        },
        None => None,
    }
}

/// The state after loading a maneuver for `tig`.
pub open spec fn load_post<N, V>(s: AgcState<N, V>, tig: Met, delta_v: V, dv_magnitude_mm_s: u32) -> AgcState<N, V> {
    if tig.0 < s.time.0 {
        with_alarm(s, ALARM_TIG_IN_PAST)
    } else {
        summary_post(
            AgcState {
                pending_maneuver: Some(Maneuver { tig, delta_v, dv_magnitude_mm_s, mode: TargetingMode::ExternalDeltaV }),
                ..s
            },
        )
    }
}

/// Load the uplinked maneuver: `delta_v` is its inertial vector data (the
/// caller rotates the crew's N81 entry from LVLH), `dv_magnitude_mm_s` its
/// magnitude.  A TIG already past raises alarm 210 and changes nothing
/// else; otherwise the maneuver becomes pending and the summary is shown.
pub fn p30_load_dv_lvlh<N, V: Copy>(state: &mut AgcState<N, V>, tig: Met, delta_v: V, dv_magnitude_mm_s: u32) -> (r: Option<(u32, u32)>)
    ensures
        *final(state) == load_post(*old(state), tig, delta_v, dv_magnitude_mm_s),
        tig.0 >= old(state).time.0 ==> r == Some((if tig.0 >= THIRTY_FIVE_MIN_CS { (tig.0 - THIRTY_FIVE_MIN_CS) as u32 } else { 0u32 }, tig.0)),
        tig.0 < old(state).time.0 ==> r.is_none(),
{
    if tig.0 < state.time.0 {
        state.alarm.raise(ALARM_TIG_IN_PAST);
        return None;
    }
    state.pending_maneuver = Some(Maneuver { tig, delta_v, dv_magnitude_mm_s, mode: TargetingMode::ExternalDeltaV });
    p30_display_summary(state)
}

/// The major-mode interface of the programs that implement it.
pub trait MajorMode {
    /// The major mode number.
    fn number(&self) -> u8;

    /// Start the program.
    fn start<N, V: Copy>(&self, state: &mut AgcState<N, V>) -> JobPriority;

    /// React to a verb/noun entered while the program runs.
    fn handle_display_input<N, V: Copy>(&self, state: &mut AgcState<N, V>, verb: u8, noun: u8);

    /// Resume after a restart in `phase`.
    fn restart_resume<N, V: Copy>(&self, state: &mut AgcState<N, V>, phase: u8);

    /// Leave the program.
    fn terminate<N, V>(&self, state: &mut AgcState<N, V>);
}

/// P30 as a major mode.
pub struct P30;

impl MajorMode for P30 {
    fn number(&self) -> (r: u8)
        ensures
            r == P30_MAJOR_MODE,
    {
        P30_MAJOR_MODE
    }

    fn start<N, V: Copy>(&self, state: &mut AgcState<N, V>) -> (p: JobPriority)
        ensures
            p == P30_JOB_PRIORITY,
            *final(state) == p30_init_post(*old(state)),
    {
        p30_init(state)
    }

    /// V06 N45 redisplays the burn summary; other entries are ignored.
    fn handle_display_input<N, V: Copy>(&self, state: &mut AgcState<N, V>, verb: u8, noun: u8)
        ensures
            verb == VERB_DISPLAY_OCT && noun == P30_NOUN_BURN_SUMMARY ==> *final(state) == summary_post(*old(state)),
            !(verb == VERB_DISPLAY_OCT && noun == P30_NOUN_BURN_SUMMARY) ==> *final(state) == *old(state),
    {
        if verb == VERB_DISPLAY_OCT && noun == P30_NOUN_BURN_SUMMARY {
            let _ = p30_display_summary(state);
        }
    }

    /// Re-enter from the top (which drops the pending maneuver), then
    /// redisplay.
    fn restart_resume<N, V: Copy>(&self, state: &mut AgcState<N, V>, phase: u8)
        ensures
            *final(state) == summary_post(p30_init_post(*old(state))),
    {
        p30_init(state);
        let _ = p30_display_summary(state);
    }

    /// Stop flashing; the pending maneuver stays for P40/P41.
    fn terminate<N, V>(&self, state: &mut AgcState<N, V>)
        ensures
            *final(state) == (AgcState { dsky: Dsky { flashing: false, ..old(state).dsky }, ..*old(state) }),
    {
        state.dsky.flashing = false;
    }
}

} // verus!
