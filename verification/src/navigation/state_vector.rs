//! Navigation state vector: position, velocity, time tag and the saved
//! half-step gravity term of the predictor-corrector integrator.
//!
//! The vector type is a parameter: the record's operations move vectors
//! around without looking inside them.
use vstd::prelude::*;
use crate::types::Met;

verus! {

/// Position, velocity, time tag and GDT/2 of one vehicle.
#[derive(Clone, Copy, Debug, PartialEq, Eq)]
pub struct StateVector<V> {
    position: V,
    velocity: V,
    time: Met,
    gdt_over_2: V,
}

impl<V> View for StateVector<V> {
    /// (position, velocity, time, gdt_over_2)
    type V = (V, V, Met, V);

    closed spec fn view(&self) -> (V, V, Met, V) {
        (self.position, self.velocity, self.time, self.gdt_over_2)
    }
}

impl<V> StateVector<V> {
    /// Time tag.
    pub fn time(&self) -> (r: Met)
        ensures
            r == self@.2,
    {
        self.time
    }
}

impl<V: Copy> StateVector<V> {
    /// A state with the given position, velocity and time; GDT/2 is
    /// `V::default()` (the zero vector for arrays of numbers), to be set by
    /// the first SERVICER gravity computation.
    pub fn new(position: V, velocity: V, time: Met) -> (s: Self)
        where V: Default
        ensures
            s@.0 == position,
            s@.1 == velocity,
            s@.2 == time,
            call_ensures(V::default, (), s@.3),
    {
        StateVector { position, velocity, time, gdt_over_2: V::default() }
    }

    /// A state with an explicit GDT/2 (restart reload).
    pub fn with_gdt(position: V, velocity: V, time: Met, gdt_over_2: V) -> (s: Self)
        ensures
            s@ == (position, velocity, time, gdt_over_2),
    {
        StateVector { position, velocity, time, gdt_over_2 }
    }

    /// Position vector.
    pub fn position(&self) -> (r: V)
        ensures
            r == self@.0,
    {
        self.position
    }

    /// Velocity vector.
    pub fn velocity(&self) -> (r: V)
        ensures
            r == self@.1,
    {
        self.velocity
    }

    /// Half-step gravity term.
    pub fn gdt_over_2(&self) -> (r: V)
        ensures
            r == self@.3,
    {
        self.gdt_over_2
    }

    /// The same state with the position replaced.
    pub fn with_position(self, r: V) -> (s: Self)
        ensures
            s@ == (r, self@.1, self@.2, self@.3),
    {
        StateVector { position: r, ..self }
    }

    /// The same state with the velocity replaced.
    pub fn with_velocity(self, v: V) -> (s: Self)
        ensures
            s@ == (self@.0, v, self@.2, self@.3),
    {
        StateVector { velocity: v, ..self }
    }

    /// The same state with the time tag replaced.
    pub fn with_time(self, t: Met) -> (s: Self)
        ensures
            s@ == (self@.0, self@.1, t, self@.3),
    {
        StateVector { time: t, ..self }
    }

    /// The same state with GDT/2 replaced.
    pub fn with_gdt_over_2(self, gdt: V) -> (s: Self)
        ensures
            s@ == (self@.0, self@.1, self@.2, gdt),
    {
        StateVector { gdt_over_2: gdt, ..self }
    }
}

/// A state vector is determined by its four components.
pub proof fn lemma_state_vector_extensional<V>(a: StateVector<V>, b: StateVector<V>)
    requires
        a@ == b@,
    ensures
        a == b,
{
}

/// The gravitational primary body for integration (MOONFLAG).
#[derive(Clone, Copy, Debug, PartialEq, Eq, Structural)]
pub enum PrimaryBody {
    /// Earth-centred integration.
    Earth,
    /// Moon-centred integration.
    Moon,
}

} // verus!
