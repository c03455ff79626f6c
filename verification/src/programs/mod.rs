//! Major-mode programs (P00 through P41).
//!
//! Every program entry takes the computer state by `&mut` and states in its
//! contract the exact state it leaves behind.  Where a program's decision
//! rests on a floating-point test (an orbit being hyperbolic, a delta-V
//! magnitude, a target vector being zero), the outcome of that test is an
//! argument or a field holding a plain value.
use vstd::prelude::*;

pub mod p00;
pub mod p00_idle;
pub mod p01_p02;
pub mod p06;
pub mod p11;
pub mod p11_eoi;
pub mod p15;
pub mod p20;
pub mod p21;
pub mod p22;
pub mod p23;
pub mod p29;
pub mod p30;
pub mod p30_ext_dv;
pub mod p31;
pub mod p32;
pub mod p33;
pub mod p34;
pub mod p37;
pub mod p40_p41;

verus! {

/// AGC major mode identifier (the MODREG encoding).
#[derive(Clone, Copy, Debug, PartialEq, Eq, Structural)]
pub enum ProgramId {
    /// P00 — CMC idle.
    P00,
    /// P11 — Earth orbit insertion monitor.
    P11,
    /// P30 — External delta-V targeting.
    P30,
    /// P37 — Return-to-Earth targeting.
    P37,
    /// P40 — SPS burn.
    P40,
    /// P41 — RCS burn.
    P41,
    /// P51 — Initial IMU alignment.
    P51,
    /// P52 — In-flight IMU realignment.
    P52,
    /// P61 — Entry pre-entry.
    P61,
}

/// The MODREG value of each program.
pub open spec fn modreg_of(p: ProgramId) -> i16 {
    match p {
        ProgramId::P00 => 0,
        ProgramId::P11 => 11,
        ProgramId::P30 => 30,
        ProgramId::P37 => 37,
        ProgramId::P40 => 40,
        ProgramId::P41 => 41,
        ProgramId::P51 => 51,
        ProgramId::P52 => 52,
        ProgramId::P61 => 61,
    }
}

/// The program named by a MODREG value, if any.
pub open spec fn program_of_modreg(m: i16) -> Option<ProgramId> {
    if m == 0 {
        Some(ProgramId::P00)
    } else if m == 11 {
        Some(ProgramId::P11)
    } else if m == 30 {
        Some(ProgramId::P30)
    } else if m == 37 {
        Some(ProgramId::P37)
    } else if m == 40 {
        Some(ProgramId::P40)
    } else if m == 41 {
        Some(ProgramId::P41)
    } else if m == 51 {
        Some(ProgramId::P51)
    } else if m == 52 {
        Some(ProgramId::P52)
    } else if m == 61 {
        Some(ProgramId::P61)
    } else {
        None
    }
}

impl ProgramId {
    /// The program whose MODREG value is `modreg`; `None` for values that
    /// name no program in scope.
    pub fn from_modreg(modreg: i16) -> (r: Option<ProgramId>)
        ensures
            r == program_of_modreg(modreg),
    {
        match modreg {
            0 => Some(ProgramId::P00),
            11 => Some(ProgramId::P11),
            30 => Some(ProgramId::P30),
            37 => Some(ProgramId::P37),
            40 => Some(ProgramId::P40),
            41 => Some(ProgramId::P41),
            51 => Some(ProgramId::P51),
            52 => Some(ProgramId::P52),
            61 => Some(ProgramId::P61),
            _ => None,
        }
    }

    /// This program's MODREG value.
    pub fn modreg(self) -> (r: i16)
        ensures
            r == modreg_of(self),
    {
        match self {
            ProgramId::P00 => 0,
            ProgramId::P11 => 11,
            ProgramId::P30 => 30,
            ProgramId::P37 => 37,
            ProgramId::P40 => 40,
            ProgramId::P41 => 41,
            ProgramId::P51 => 51,
            ProgramId::P52 => 52,
            ProgramId::P61 => 61,
        }
    }
}

/// MODREG encoding and decoding are inverse: decoding a program's MODREG
/// value gives the program back, and whatever a value decodes to encodes
/// to that value.
pub proof fn lemma_modreg_round_trip(p: ProgramId, m: i16)
    ensures
        program_of_modreg(modreg_of(p)) == Some(p),
        program_of_modreg(m) matches Some(q) ==> modreg_of(q) == m,
{
}

/// A program's MODREG value is its program number: P00 is 0, P11 is 11,
/// P30 is 30, P37 is 37, P40 is 40, P41 is 41, P51 is 51, P52 is 52 and
/// P61 is 61; exactly these values decode to a program, each to the one
/// with that number.
pub proof fn lemma_modreg_is_program_number(m: i16)
    ensures
        modreg_of(ProgramId::P00) == 0,
        modreg_of(ProgramId::P11) == 11,
        modreg_of(ProgramId::P30) == 30,
        modreg_of(ProgramId::P37) == 37,
        modreg_of(ProgramId::P40) == 40,
        modreg_of(ProgramId::P41) == 41,
        modreg_of(ProgramId::P51) == 51,
        modreg_of(ProgramId::P52) == 52,
        modreg_of(ProgramId::P61) == 61,
        program_of_modreg(m) is Some <==> (m == 0 || m == 11 || m == 30 || m == 37 || m == 40 || m == 41
            || m == 51 || m == 52 || m == 61),
        program_of_modreg(m) matches Some(q) ==> modreg_of(q) == m,
{
}

} // verus!
