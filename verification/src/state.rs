//! The computer's erasable state as far as this crate interprets it.
//!
//! Everything the programs decide on is held here as plain values: the major
//! mode, the DSKY control fields, the alarm register, burn and DAP flags, the
//! Waitlist, the navigation-program counters, the navigation state vector of
//! the average-G integrator, and the discrete parts of the stored state
//! vectors (epoch and frame).  Floating-point navigation data
//! (position and velocity vectors, covariance matrices, REFSMMAT, DSKY
//! register contents) is carried but never interpreted: vectors have the type
//! parameter `V` and all other such data lives in the payload `nav: N`.
use vstd::prelude::*;
use crate::executive::{schedule_effect, ScheduleResult, Task, Waitlist, WaitlistEntry, WAITLIST_CAPACITY};
use crate::navigation::state_vector::StateVector;
use crate::types::{CduAngle, Frame, Met, MODREG_NONE};

verus! {

/// DSKY control fields (the PROG/VERB/NOUN displays and the lamps).
#[derive(Clone, Copy, Debug, PartialEq, Eq, Structural)]
pub struct Dsky {
    /// PROG display.
    pub prog: u8,
    /// VERB display.
    pub verb: u8,
    /// NOUN display.
    pub noun: u8,
    /// VERB/NOUN flashing: crew response requested.
    pub flashing: bool,
    /// STBY lamp.
    pub stby: bool,
    /// COMP ACTY lamp.
    pub comp_acty: bool,
}

/// The program-alarm register and the PROG alarm lamp.
#[derive(Clone, Copy, Debug, PartialEq, Eq, Structural)]
pub struct AlarmState {
    /// Most recent alarm code (0 = none).
    pub code: u16,
    /// PROG alarm lamp.
    pub lit: bool,
}

impl AlarmState {
    /// Record alarm `code` and light the lamp.
    pub fn raise(&mut self, code: u16)
        ensures
            *final(self) == (AlarmState { code, lit: true }),
    {
        self.code = code;
        self.lit = true;
    }

    /// The most recent alarm code.
    pub fn code(&self) -> (r: u16)
        ensures
            r == self.code,
    {
        self.code
    }
}

/// Digital autopilot mode.
#[derive(Clone, Copy, Debug, PartialEq, Eq, Structural)]
pub enum DapMode {
    /// DAP stopped.
    Off,
    /// Hold the current attitude with RCS jets.
    AttitudeHold,
    /// Slew to a commanded attitude, then hold.
    Maneuver,
    /// Thrust-vector control during an SPS burn.
    Tvc,
}

/// Digital autopilot state.
#[derive(Clone, Copy, Debug, PartialEq, Eq, Structural)]
pub struct DapState {
    /// Current mode.
    pub mode: DapMode,
}

/// IMU platform alignment state.
#[derive(Clone, Copy, Debug, PartialEq, Eq, Structural)]
pub enum ImuAlignmentState {
    /// Platform caged to the spacecraft body.
    Caged,
    /// Coarse-aligned (gyrocompassing converged).
    CoarseAligned,
    /// Fine-aligned to the stars.
    FineAligned,
}

/// Which program's hook runs at the end of every SERVICER cycle.
#[derive(Clone, Copy, Debug, PartialEq, Eq, Structural)]
pub enum ServicerHook {
    /// P11 apogee/perigee monitor.
    P11Monitor,
    /// P15 TLI monitor.
    P15Monitor,
    /// Burn monitor installed by P40/P41.
    BurnMonitor,
}

/// How a maneuver was targeted.
#[derive(Clone, Copy, Debug, PartialEq, Eq, Structural)]
pub enum TargetingMode {
    /// Crew- or ground-supplied LVLH delta-V (P30).
    ExternalDeltaV,
    /// Coelliptic sequence initiation (P31).
    CsiBurn,
    /// Constant delta-height (P32).
    CdhBurn,
    /// Terminal phase initiation (P33).
    TpiBurn,
    /// Terminal phase midcourse (P34).
    TpmBurn,
    /// Trans-Earth injection (P37).
    ReturnToEarth,
}

/// A targeted maneuver waiting for P40/P41.
///
/// `delta_v` is the maneuver's vector data (inertial delta-V and burn
/// attitude), carried uninterpreted; `dv_magnitude_mm_s` is the delta-V
/// magnitude in millimetres per second, the quantity the burn programs test.
#[derive(Clone, Copy, Debug, PartialEq, Eq)]
pub struct Maneuver<V> {
    /// Time of ignition.
    pub tig: Met,
    /// Vector data of the maneuver.
    pub delta_v: V,
    /// Delta-V magnitude, mm/s.
    pub dv_magnitude_mm_s: u32,
    /// Targeting program that produced it.
    pub mode: TargetingMode,
}

/// Live burn state.
#[derive(Clone, Copy, Debug, PartialEq, Eq)]
pub struct BurnState<V> {
    /// A burn is set up and being monitored.
    pub burn_active: bool,
    /// The crew has armed the engine; ignition happens at TIG.
    pub armed: bool,
    /// Time of ignition.
    pub tig: Met,
    /// Vector data of the maneuver being flown, once one is engaged.
    pub target_dv_inertial: Option<V>,
}

/// Callback run when the crew answers a V50 request with PRO.
#[derive(Clone, Copy, Debug, PartialEq, Eq, Structural)]
pub enum V50Callback {
    /// P40: arm the SPS for ignition at TIG.
    P40ArmEngine,
}

/// A flashing V50 "please perform" request awaiting PRO.
#[derive(Clone, Copy, Debug, PartialEq, Eq, Structural)]
pub struct V50Request {
    /// Noun shown with V50.
    pub noun: u8,
    /// Action to run on PRO.
    pub callback: V50Callback,
}

/// Verb/noun processor state.
#[derive(Clone, Copy, Debug, PartialEq, Eq)]
pub struct VnState<V> {
    /// Outstanding V50 request.
    pub pending_v50: Option<V50Request>,
    /// TIG loaded by the crew for the targeting programs.
    pub pending_tig: Option<Met>,
    /// Latitude/longitude/altitude loaded through N89 for P29.
    pub crew_p29_target: Option<V>,
}

/// A stored state vector: vectors carried as `V`, epoch and frame as values.
#[derive(Clone, Copy, Debug, PartialEq, Eq)]
pub struct FramedStateVector<V> {
    /// Position.
    pub position: V,
    /// Velocity.
    pub velocity: V,
    /// Epoch of the state.
    pub epoch: Met,
    /// Frame of the state.
    pub frame: Frame,
}

/// Mark bookkeeping of a navigation filter (P20 target filter or the
/// P22/P23 CSM filter).
#[derive(Clone, Copy, Debug, PartialEq, Eq, Structural)]
pub struct NavFilterState {
    /// Epoch of the filter's state estimate.
    pub epoch: Met,
    /// Time of the last accepted mark (or of the last rectification).
    pub last_mark_time: Met,
    /// Marks accepted since initialisation.
    pub mark_count: u16,
    /// Marks rejected since initialisation.
    pub reject_count: u16,
    /// Rejects since the last accepted mark.
    pub consecutive_reject_count: u8,
    /// The filter is tracking and incorporating marks.
    pub tracking_active: bool,
}

/// Program flags (flag-word bits).
#[derive(Clone, Copy, Debug, PartialEq, Eq, Structural)]
pub struct Flags {
    /// REFSMMAT is valid.
    pub refsmflg: bool,
    /// Uplink/update in progress.
    pub updatflg: bool,
    /// Tracking allowed.
    pub trackflg: bool,
    /// External delta-V guidance selected.
    pub xdelvflg: bool,
}

/// The computer state interpreted by this crate.
#[derive(Debug)]
pub struct AgcState<N, V> {
    /// Current major mode.
    pub major_mode: u8,
    /// MODREG (major mode register; -1 before P00 is first entered).
    pub modreg: i16,
    /// Mission elapsed time.
    pub time: Met,
    /// DSKY control fields.
    pub dsky: Dsky,
    /// Program alarm register.
    pub alarm: AlarmState,
    /// Burn state.
    pub burn: BurnState<V>,
    /// The SPS is commanded on.
    pub engine_thrusting: bool,
    /// SERVICER exit hook.
    pub servicer_exit: Option<ServicerHook>,
    /// The SERVICER (average-G) cycle is running.
    pub servicer_active: bool,
    /// Digital autopilot.
    pub dap_state: DapState,
    /// Targeted maneuver awaiting a burn program.
    pub pending_maneuver: Option<Maneuver<V>>,
    /// IMU alignment state.
    pub imu_alignment_state: ImuAlignmentState,
    /// Current CDU angles (inner, middle, outer).
    pub current_cdu: [CduAngle; 3],
    /// Deferred tasks.
    pub waitlist: Waitlist,
    /// Verb/noun processor state.
    pub vn: VnState<V>,
    /// Navigation state vector advanced by the average-G integrator (its
    /// time tag is the navigation time that P11 records at liftoff).
    pub sv: StateVector<V>,
    /// CSM state vector.
    pub csm_state: FramedStateVector<V>,
    /// Uplinked target (LM) state vector.
    pub target_state: FramedStateVector<V>,
    /// P20 target-filter bookkeeping.
    pub rendezvous_nav: NavFilterState,
    /// P22/P23 CSM-filter bookkeeping.
    pub csm_nav: NavFilterState,
    /// Arrival epoch of the last TPI solution (for P34).
    pub tpi_arrival_epoch: Option<Met>,
    /// Restart phase of each restart group (index = group number).
    pub restart_phase: [u8; 8],
    /// Program flags.
    pub flags: Flags,
    /// Ephemeris time offset, centiseconds.
    pub tephem: u64,
    /// Liftoff time.
    pub tliftoff: Met,
    /// The average-G exit hook (P11 display) is installed.
    pub avgexit_active: bool,
    /// TIG stored by the P30 external delta-V entry.
    pub ext_dv_tig: Met,
    /// LVLH delta-V stored by the P30 external delta-V entry (DELVSLV).
    pub ext_dv_lvlh: Option<V>,
    /// Floating-point navigation and display data, uninterpreted.
    pub nav: N,
}

/// Alarm raised when a task cannot be queued because the Waitlist is full.
pub const ALARM_WAITLIST_FULL: u16 = 1211;

/// `s` with alarm `code` recorded and the lamp lit.
pub open spec fn with_alarm<N, V>(s: AgcState<N, V>, code: u16) -> AgcState<N, V> {
    AgcState { alarm: AlarmState { code, lit: true }, ..s }
}

/// The alarm part of queuing a task in state `s`: alarm 1211 when every
/// Waitlist slot is taken, otherwise nothing.
pub open spec fn schedule_alarm_post<N, V>(s: AgcState<N, V>) -> AgcState<N, V> {
    if s.waitlist@.len() >= WAITLIST_CAPACITY {
        with_alarm(s, ALARM_WAITLIST_FULL)
    } else {
        s
    }
}

/// Queue `task` after `delay_cs`; raise alarm 1211 if the Waitlist is full.
pub fn schedule_or_alarm<N, V>(state: &mut AgcState<N, V>, delay_cs: u16, task: Task)
    ensures
        *final(state) == (AgcState { waitlist: final(state).waitlist, ..schedule_alarm_post(*old(state)) }),
        schedule_effect(old(state).waitlist@, delay_cs, task, final(state).waitlist@),
{
    if state.waitlist.schedule(delay_cs, task) == ScheduleResult::Full {
        state.alarm.raise(ALARM_WAITLIST_FULL);
    }
}

/// A navigation filter with nothing recorded.
pub open spec fn empty_filter() -> NavFilterState {
    NavFilterState {
        epoch: Met(0),
        last_mark_time: Met(0),
        mark_count: 0,
        reject_count: 0,
        consecutive_reject_count: 0,
        tracking_active: false,
    }
}

impl NavFilterState {
    /// A navigation filter with nothing recorded.
    pub fn new() -> (f: NavFilterState)
        ensures
            f == empty_filter(),
    {
        NavFilterState {
            epoch: Met(0),
            last_mark_time: Met(0),
            mark_count: 0,
            reject_count: 0,
            consecutive_reject_count: 0,
            tracking_active: false,
        }
    }
}

impl<N, V: Copy> AgcState<N, V> {
    /// Fresh-start state: no program selected, all lamps dark, nothing queued,
    /// the navigation state vector at time 0 with every vector `zero`, and
    /// both stored state vectors at epoch 0 in the Earth frame with position
    /// and velocity `zero`.
    pub fn new(nav: N, zero: V) -> (s: Self)
        ensures
            s.major_mode == 0,
            s.modreg == MODREG_NONE,
            s.time == Met(0),
            s.dsky == (Dsky { prog: 0, verb: 0, noun: 0, flashing: false, stby: false, comp_acty: false }),
            s.alarm == (AlarmState { code: 0, lit: false }),
            s.burn == (BurnState::<V> { burn_active: false, armed: false, tig: Met(0), target_dv_inertial: None }),
            !s.engine_thrusting,
            s.servicer_exit.is_none(),
            !s.servicer_active,
            s.dap_state.mode == DapMode::Off,
            s.pending_maneuver.is_none(),
            s.imu_alignment_state == ImuAlignmentState::Caged,
            s.current_cdu == [CduAngle(0), CduAngle(0), CduAngle(0)],
            s.waitlist@ == Seq::<WaitlistEntry>::empty(),
            s.vn == (VnState::<V> { pending_v50: None, pending_tig: None, crew_p29_target: None }),
            s.sv@ == (zero, zero, Met(0), zero),
            s.csm_state == (FramedStateVector { position: zero, velocity: zero, epoch: Met(0), frame: Frame::EarthInertial }),
            s.target_state == (FramedStateVector { position: zero, velocity: zero, epoch: Met(0), frame: Frame::EarthInertial }),
            s.rendezvous_nav == empty_filter(),
            s.csm_nav == empty_filter(),
            s.tpi_arrival_epoch.is_none(),
            forall|g: int| 0 <= g < 8 ==> s.restart_phase[g] == 0,
            s.flags == (Flags { refsmflg: false, updatflg: false, trackflg: false, xdelvflg: false }),
            s.tephem == 0,
            s.tliftoff == Met(0),
            !s.avgexit_active,
            s.ext_dv_tig == Met(0),
            s.ext_dv_lvlh.is_none(),
            s.nav == nav,
    {
        AgcState {
            major_mode: 0,
            modreg: MODREG_NONE,
            time: Met(0),
            dsky: Dsky { prog: 0, verb: 0, noun: 0, flashing: false, stby: false, comp_acty: false },
            alarm: AlarmState { code: 0, lit: false },
            burn: BurnState { burn_active: false, armed: false, tig: Met(0), target_dv_inertial: None },
            engine_thrusting: false,
            servicer_exit: None,
            servicer_active: false,
            dap_state: DapState { mode: DapMode::Off },
            pending_maneuver: None,
            imu_alignment_state: ImuAlignmentState::Caged,
            current_cdu: [CduAngle(0), CduAngle(0), CduAngle(0)],
            waitlist: Waitlist::new(),
            vn: VnState { pending_v50: None, pending_tig: None, crew_p29_target: None },
            sv: StateVector::with_gdt(zero, zero, Met(0), zero),
            csm_state: FramedStateVector { position: zero, velocity: zero, epoch: Met(0), frame: Frame::EarthInertial },
            target_state: FramedStateVector { position: zero, velocity: zero, epoch: Met(0), frame: Frame::EarthInertial },
            rendezvous_nav: NavFilterState::new(),
            csm_nav: NavFilterState::new(),
            tpi_arrival_epoch: None,
            restart_phase: [0u8; 8],
            flags: Flags { refsmflg: false, updatflg: false, trackflg: false, xdelvflg: false },
            tephem: 0,
            tliftoff: Met(0),
            avgexit_active: false,
            ext_dv_tig: Met(0),
            ext_dv_lvlh: None,
            nav,
        }
    }
}

} // verus!
