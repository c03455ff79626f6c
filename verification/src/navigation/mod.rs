//! Navigation data structures and filter bookkeeping.
pub mod integration;
pub mod kalman;
pub mod state_vector;
