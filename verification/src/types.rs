//! Basic value types shared by the whole crate.
use vstd::prelude::*;

verus! {

/// Executive job priority (higher runs first).
pub type JobPriority = u8;

/// MODREG value meaning "no program selected" (fresh start, before P00).
pub const MODREG_NONE: i16 = -1;

/// Mission elapsed time in centiseconds.
#[derive(Clone, Copy, Debug, PartialEq, Eq, Structural)]
pub struct Met(pub u32);

impl Met {
    /// Build a time from a centisecond count.
    pub fn from_centiseconds(cs: u32) -> (r: Met)
        ensures
            r.0 == cs,
    {
        Met(cs)
    }

    /// The centisecond count of this time.
    pub fn as_centiseconds(self) -> (r: u32)
        ensures
            r == self.0,
    {
        self.0
    }
}

/// A CDU (coupling data unit) gimbal angle in counts; 65536 counts per turn.
#[derive(Clone, Copy, Debug, PartialEq, Eq, Structural)]
pub struct CduAngle(pub i16);

/// Coordinate frame of a stored state vector.
#[derive(Clone, Copy, Debug, PartialEq, Eq, Structural)]
pub enum Frame {
    /// Earth-centred inertial.
    EarthInertial,
    /// Moon-centred inertial.
    MoonInertial,
    /// IMU stable-member frame (never valid for a stored state vector).
    StableMember,
}

} // verus!
