//! Discrete core of the Apollo Guidance Computer command-module
//! flight software: major-mode selection, program entry sequences, alarms,
//! the DSKY control fields, the Waitlist, and the navigation-program
//! bookkeeping (mark counters, tracking flags, frame checks).
use vstd::prelude::*;

pub mod display;
pub mod executive;
pub mod navigation;
pub mod programs;
pub mod services;
pub mod state;
pub mod types;

verus! {
} // verus!
