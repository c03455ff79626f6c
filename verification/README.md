# agc_core

The discrete logic of the Apollo Guidance Computer's command-module flight
software, as a Verus library: major-mode selection, the program entry
sequences (P00 to P41), alarms, the DSKY control fields, the Waitlist, the
burn arming and ignition sequence, and the bookkeeping of the navigation
programs (mark counters, reject runs, tracking flags, frame checks,
covariance decisions).

## Layout

- `src/` — the verified library. Every public function states its effect on
  the computer state as an exact `ensures` over spec functions named
  `*_post`; the laws that relate several operations are public proof
  functions beside them (`lemma_*`).
  - `types.rs`, `state.rs` — mission time, CDU angles, frames and the
    computer state. Floating-point vectors are a type parameter `V` and other
    floating-point data a payload `N`; the library moves them around without
    interpreting them.
  - `executive.rs` — the nine-slot Waitlist, ordered by delay, first in first
    out for equal delays.
  - `services.rs` — V50 requests, the PRO key, the DAP ignition check.
  - `display.rs` — the whole-number register contents the programs write
    (counts, cleared displays, times) and the DSKY encoding of signed
    integers.
  - `navigation/` — the state-vector record, mark bookkeeping and covariance
    decisions, the sphere-of-influence decision.
  - `programs/` — one module per program.
- `tests/` — tests of the library on concrete values.
- `app/` — the floating-point computations (vector algebra, Kepler and
  Lambert solutions, conics, gravity, ephemerides, the Kalman update) and the
  program flows that feed their results to the library as plain values:
  program selection, the idle entry, the P11 liftoff sequence (with the
  REFSMMAT built from the CDU angles), the Waitlist tasks, the PRO key and
  the DAP ignition check, the P11/P15 monitors, the P20/P22/P23 cycles and marks, the P30
  loads and the P31 to P34 targeting. Three computations have no flow: the
  P29 time-of-longitude solver, the P37 trans-Earth solution and the P30
  burn-target prediction, whose algorithms this project does not have; nor
  has it the relative-motion (LVLH) and N54 line-of-sight computations, so
  the P20 cycle's display request is not acted on.
