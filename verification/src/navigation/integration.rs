//! Sphere-of-influence bookkeeping of the state-vector integration: when a
//! propagated state changes its primary body, and what the changed state
//! vector is.
//!
//! The Moon-relative distance and the vector conversions (subtracting or
//! adding the Moon's position and velocity) are floating-point work of the
//! caller; the decision and the assembly of the result are made here.
use vstd::prelude::*;
use crate::state::FramedStateVector;
use crate::types::Frame;

verus! {

/// Where a state lies relative to the Moon's sphere of influence.
#[derive(Clone, Copy, Debug, PartialEq, Eq, Structural)]
pub enum MoonDistance {
    /// Closer to the Moon than the SOI radius.
    Inside,
    /// Exactly at the SOI radius.
    Boundary,
    /// Farther from the Moon than the SOI radius.
    Outside,
}

/// What the SOI check does to a state vector.
#[derive(Clone, Copy, Debug, PartialEq, Eq, Structural)]
pub enum SoiTransition {
    /// Keep the state vector as it is.
    Keep,
    /// Entering the Moon's SOI: convert to Moon-centred inertial.
    ToMoonInertial,
    /// Leaving the Moon's SOI: convert to Earth-centred inertial.
    ToEarthInertial,
}

/// The transition for a state in `frame` at `distance` from the Moon: an
/// Earth-centred state strictly inside the SOI enters it, a Moon-centred one
/// strictly outside leaves it; states on the boundary, and stable-member
/// states, are kept.
pub open spec fn soi_transition_for(frame: Frame, distance: MoonDistance) -> SoiTransition {
    match (frame, distance) {
        (Frame::EarthInertial, MoonDistance::Inside) => SoiTransition::ToMoonInertial,
        (Frame::MoonInertial, MoonDistance::Outside) => SoiTransition::ToEarthInertial,
        _ => SoiTransition::Keep,
    }
}

/// Decide the SOI transition of a state in `frame` at `distance`.
pub fn soi_transition(frame: Frame, distance: MoonDistance) -> (t: SoiTransition)
    ensures
        t == soi_transition_for(frame, distance),
{
    match frame {
        Frame::EarthInertial => match distance {
            MoonDistance::Inside => SoiTransition::ToMoonInertial,
            _ => SoiTransition::Keep,
        },
        Frame::MoonInertial => match distance {
            MoonDistance::Outside => SoiTransition::ToEarthInertial,
            _ => SoiTransition::Keep,
        },
        Frame::StableMember => SoiTransition::Keep,
    }
}

/// The state vector after transition `t`: unchanged for `Keep`, else the
/// converted `position` and `velocity` in the new frame at the same epoch.
pub open spec fn crossed_state_for<V>(sv: FramedStateVector<V>, t: SoiTransition, position: V, velocity: V) -> FramedStateVector<V> {
    match t {
        SoiTransition::Keep => sv,
        SoiTransition::ToMoonInertial => FramedStateVector { position, velocity, epoch: sv.epoch, frame: Frame::MoonInertial },
        SoiTransition::ToEarthInertial => FramedStateVector { position, velocity, epoch: sv.epoch, frame: Frame::EarthInertial },
    }
}

/// Assemble the state vector after transition `t` from the converted
/// `position` and `velocity`.
pub fn crossed_state<V>(sv: FramedStateVector<V>, t: SoiTransition, position: V, velocity: V) -> (r: FramedStateVector<V>)
    ensures
        r == crossed_state_for(sv, t, position, velocity),
{
    match t {
        SoiTransition::Keep => sv,
        SoiTransition::ToMoonInertial => FramedStateVector { position, velocity, epoch: sv.epoch, frame: Frame::MoonInertial },
        SoiTransition::ToEarthInertial => FramedStateVector { position, velocity, epoch: sv.epoch, frame: Frame::EarthInertial },
    }
}

/// The check does not oscillate: a state that has just crossed the SOI
/// boundary is kept by a second check at the same distance.
pub proof fn lemma_soi_crossing_settles(frame: Frame, distance: MoonDistance)
    ensures
        soi_transition_for(frame, distance) == SoiTransition::ToMoonInertial
            ==> soi_transition_for(Frame::MoonInertial, distance) == SoiTransition::Keep,
        soi_transition_for(frame, distance) == SoiTransition::ToEarthInertial
            ==> soi_transition_for(Frame::EarthInertial, distance) == SoiTransition::Keep,
{
}

} // verus!
