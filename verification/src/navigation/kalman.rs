//! Outcome of a scalar measurement incorporation and the mark bookkeeping
//! that follows it.
use vstd::prelude::*;
use crate::state::{AgcState, NavFilterState};
use crate::types::Met;

verus! {

/// Result of one scalar Kalman measurement update.
#[derive(Clone, Copy, Debug, PartialEq, Eq, Structural)]
pub enum UpdateOutcome {
    /// Residual within the 3-sigma limit; state and covariance updated.
    Accepted,
    /// Residual outside the 3-sigma limit; nothing updated.
    Rejected,
    /// Accepted, but a covariance diagonal went non-positive.
    AcceptedWOverflow,
}

/// Number of consecutive rejected marks that stops tracking.
pub const CONSECUTIVE_REJECT_LIMIT: u8 = 5;

/// Filter bookkeeping after an accepted mark taken at `t`.
pub open spec fn accepted_post(f: NavFilterState, t: Met) -> NavFilterState {
    NavFilterState {
        mark_count: (f.mark_count + 1) as u16,
        last_mark_time: t,
        consecutive_reject_count: 0,
        ..f
    }
}

/// Filter bookkeeping after an accepted mark taken at `t` when the last
/// mark time only moves forward: as [`accepted_post`], except that an
/// earlier `t` leaves the last mark time as it was.
pub open spec fn accepted_forward_post(f: NavFilterState, t: Met) -> NavFilterState {
    NavFilterState {
        mark_count: (f.mark_count + 1) as u16,
        last_mark_time: if t.0 > f.last_mark_time.0 { t } else { f.last_mark_time },
        consecutive_reject_count: 0,
        ..f
    }
}

/// Filter bookkeeping after a rejected mark.
pub open spec fn rejected_post(f: NavFilterState) -> NavFilterState {
    NavFilterState {
        reject_count: (f.reject_count + 1) as u16,
        consecutive_reject_count: (f.consecutive_reject_count + 1) as u8,
        ..f
    }
}

/// Count an accepted mark taken at `t`: one more mark, the consecutive
/// reject run ends, and `t` becomes the last mark time.
pub fn record_accepted(f: &mut NavFilterState, t: Met)
    requires
        old(f).mark_count < u16::MAX,
    ensures
        *final(f) == accepted_post(*old(f), t),
{
    f.mark_count = f.mark_count + 1;
    f.last_mark_time = t;
    f.consecutive_reject_count = 0;
}

/// Count an accepted mark taken at `t`, moving the last mark time forward
/// only.
pub fn record_accepted_forward(f: &mut NavFilterState, t: Met)
    requires
        old(f).mark_count < u16::MAX,
    ensures
        *final(f) == accepted_forward_post(*old(f), t),
{
    f.mark_count = f.mark_count + 1;
    if t.0 > f.last_mark_time.0 {
        f.last_mark_time = t;
    }
    f.consecutive_reject_count = 0;
}

/// Count a rejected mark.  Returns whether the consecutive-reject run has
/// reached the limit.
pub fn record_rejected(f: &mut NavFilterState) -> (limit_reached: bool)
    requires
        old(f).reject_count < u16::MAX,
        old(f).consecutive_reject_count < u8::MAX,
    ensures
        *final(f) == rejected_post(*old(f)),
        limit_reached == (final(f).consecutive_reject_count >= CONSECUTIVE_REJECT_LIMIT),
{
    f.reject_count = f.reject_count + 1;
    f.consecutive_reject_count = f.consecutive_reject_count + 1;
    f.consecutive_reject_count >= CONSECUTIVE_REJECT_LIMIT
}


/// The state after `n` rejected marks in a row, where `step` is the effect
/// of one rejected mark on the state.
pub open spec fn reject_run<N, V>(
    step: spec_fn(AgcState<N, V>) -> AgcState<N, V>,
    s: AgcState<N, V>,
    n: nat,
) -> AgcState<N, V>
    decreases n,
{
    if n == 0 {
        s
    } else {
        step(reject_run(step, s, (n - 1) as nat))
    }
}

/// `step` counts a rejected mark on the filter that `filter` selects as all
/// navigation programs do while the run stays under the limit: the reject
/// counters advance and nothing else of the filter or the alarm changes.
pub open spec fn counts_short_rejects<N, V>(
    step: spec_fn(AgcState<N, V>) -> AgcState<N, V>,
    filter: spec_fn(AgcState<N, V>) -> NavFilterState,
) -> bool {
    forall|x: AgcState<N, V>|
        #![trigger step(x)]
        filter(x).consecutive_reject_count + 1 < CONSECUTIVE_REJECT_LIMIT ==> filter(step(x)) == rejected_post(
            filter(x),
        ) && step(x).alarm == x.alarm
}

/// Up to four rejected marks after an accepted one only count the run: the
/// consecutive count is the number of rejects, tracking and the alarm are
/// as they were.
pub proof fn lemma_short_reject_run<N, V>(
    step: spec_fn(AgcState<N, V>) -> AgcState<N, V>,
    filter: spec_fn(AgcState<N, V>) -> NavFilterState,
    s: AgcState<N, V>,
    n: nat,
)
    requires
        counts_short_rejects(step, filter),
        filter(s).consecutive_reject_count == 0,
        n < CONSECUTIVE_REJECT_LIMIT,
    ensures
        filter(reject_run(step, s, n)).consecutive_reject_count == n,
        filter(reject_run(step, s, n)).tracking_active == filter(s).tracking_active,
        reject_run(step, s, n).alarm == s.alarm,
    decreases n,
{
    if n > 0 {
        lemma_short_reject_run(step, filter, s, (n - 1) as nat);
        let x = reject_run(step, s, (n - 1) as nat);
        assert(filter(step(x)) == rejected_post(filter(x)));
    }
}

} // verus!

verus! {

/// Longest gap between marks over which the rendezvous and landmark
/// filters add process noise; beyond it the covariance is re-initialised
/// instead (3600 s).
pub const MAX_PROCESS_NOISE_DT_CS: u32 = 360_000;

/// What a navigation cycle does to the covariance (W) matrix.
#[derive(Clone, Copy, Debug, PartialEq, Eq, Structural)]
pub enum CovarianceUpdate {
    /// Leave W as it is.
    Unchanged,
    /// Re-initialise W to its default diagonal.
    Reinitialise,
    /// Add process noise for `dt_cs` centiseconds.
    Grow { dt_cs: u32 },
}

/// The covariance action for a cycle at `now` whose last mark was at `last`,
/// for a filter that adds process noise over gaps of at most `max_dt_cs`:
/// re-initialise after a longer gap, grow for a positive gap, otherwise
/// nothing.
pub open spec fn covariance_update_for(now: Met, last: Met, max_dt_cs: u32) -> CovarianceUpdate {
    if now.0 > last.0 && now.0 - last.0 > max_dt_cs {
        CovarianceUpdate::Reinitialise
    } else if now.0 > last.0 {
        CovarianceUpdate::Grow { dt_cs: (now.0 - last.0) as u32 }
    } else {
        CovarianceUpdate::Unchanged
    }
}

/// Decide the covariance action for a cycle at `now` after a mark at
/// `last`, with process noise added over gaps of at most `max_dt_cs`.
pub fn covariance_update(now: Met, last: Met, max_dt_cs: u32) -> (r: CovarianceUpdate)
    ensures
        r == covariance_update_for(now, last, max_dt_cs),
{
    if now.0 > last.0 && now.0 - last.0 > max_dt_cs {
        CovarianceUpdate::Reinitialise
    } else if now.0 > last.0 {
        CovarianceUpdate::Grow { dt_cs: now.0 - last.0 }
    } else {
        CovarianceUpdate::Unchanged
    }
}

} // verus!
