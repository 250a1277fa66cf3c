//! The charge controller's per-sample logic.
//!
//! Each status tick runs two state machines. The battery display logic
//! ([`Looper::handle_battery_display`]) reports the charging status of the
//! previous tick; the charge control logic
//! ([`Looper::handle_battery_status`]) then decides the UFCS current vote.
//! Every request that a machine returns is carried out by the caller, whose
//! outcome goes back in through the matching `resume_*` method, until the
//! request is `Done`.
//!
//! A charge session starts when a UFCS charger is seen after a period of not
//! charging. It votes the ramp step (capped), then raises the vote by the
//! step that was locked at its start on every sample until the cap is
//! reached (constant current). Once either cell reaches the constant voltage
//! the vote follows the measured current less the taper step (constant
//! voltage); once either cell reaches the cut-off voltage the vote is zero
//! for the rest of the session. A vote that fails leaves the state as it was,
//! so the next sample tries it again.

use vstd::prelude::*;
use crate::battery::BccParams;
use crate::battery_display::{
    BatteryDisplay, DisplayOutcome, DisplayRequest, DisplayState, display_begin, display_initial,
    display_resume,
};
use crate::config::Config;
use crate::ramp_up;
use crate::taper;

verus! {

/// The charger type that `battery_log_content` reports for a UFCS charger.
pub const UFCS_CHARGE_TYPE: u32 = 15;

/// How many times the charger type is read at most when charging starts;
/// a charger that is not yet recognised as UFCS is read again until then.
pub const CHARGE_TYPE_READS_MAX: u32 = 4;

/// The stage of a charge session.
#[derive(Clone, Copy, Debug, PartialEq, Eq, Structural)]
pub enum ChargePhase {
    RampUp,
    ConstantCurrent,
    ConstantVoltage,
}

/// A charge session: the vote in force, the ramp step locked at its start,
/// its stage, and whether the cut-off voltage was reached.
#[derive(Clone, Copy, Debug, PartialEq, Eq, Structural)]
pub struct Session {
    pub current_vote: i32,
    pub ramp_step_ma: u32,
    pub phase: ChargePhase,
    pub cut_off: bool,
}

/// What the charge control logic needs the caller to do next.
#[derive(Clone, Copy, Debug, PartialEq, Eq, Structural)]
pub enum ChargeRequest {
    /// Read the charger type and report it.
    ReadChargeType,
    /// Vote this UFCS current (mA) and report whether that succeeded.
    ApplyVote(i32),
    /// Read a charge sample and report it.
    ReadParams,
    /// The tick is over.
    Done,
}

/// What came of the last request.
#[derive(Clone, Copy, Debug, PartialEq, Eq, Structural)]
pub enum ChargeOutcome {
    /// The charger type, or `None` when it could not be read.
    ChargeType(Option<u32>),
    /// Whether the vote was applied.
    VoteApplied(bool),
    /// The charge sample, or `None` when it could not be read.
    Params(Option<BccParams>),
}

/// The request a tick waits on, with what the tick needs to go on.
#[derive(Clone, Copy, Debug, PartialEq, Eq, Structural)]
pub enum ChargePending {
    Idle,
    /// The charger type; `reads` reads were asked for so far.
    ChargeType { previous: Option<bool>, reads: u32 },
    /// The first vote of a new session, with the step the session will lock.
    InitialVote { vote: i32, step: u32 },
    /// A charge sample; `first_sample` when the session was started by this tick.
    Params { first_sample: bool },
    /// A vote; `reached` when it is the ramp's cap.
    Vote { vote: i32, reached: bool },
}

/// The charge control logic's state.
#[derive(Clone, Copy, Debug, PartialEq, Eq, Structural)]
pub struct ChargeState {
    pub session: Option<Session>,
    pub pending: ChargePending,
}

/// The whole per-sample state.
#[derive(Clone, Copy, Debug, PartialEq, Eq, Structural)]
pub struct LooperState {
    pub display: DisplayState,
    pub charge: ChargeState,
}

/// The charge state before the first tick.
pub open spec fn charge_initial() -> ChargeState {
    ChargeState { session: None, pending: ChargePending::Idle }
}

/// The first vote of a session: the ramp step, capped at the profile's
/// limit (a step wider than `i32` always is).
pub open spec fn initial_vote(config: Config) -> i32 {
    if config.ufcs_ramp_step_ma as int <= i32::MAX as int && (config.ufcs_ramp_step_ma as int)
        <= config.ufcs_max_vote as int {
        config.ufcs_ramp_step_ma as i32
    } else {
        config.ufcs_max_vote
    }
}

/// Whether either cell has reached `threshold_mv`.
pub open spec fn either_cell_at(p: BccParams, threshold_mv: i32) -> bool {
    p.cell_voltage_1_mv >= threshold_mv || p.cell_voltage_2_mv >= threshold_mv
}

/// The size of the measured current, in mA, saturated at `i32::MAX`.
pub open spec fn measured_current(p: BccParams) -> i32 {
    let c = p.current_ma as int;
    let size = if c < 0 { -c } else { c };
    if size > i32::MAX as int {
        i32::MAX
    } else {
        size as i32
    }
}

/// The vote that a sample calls for, and whether the ramp's cap is reached:
/// zero after the cut-off; the measured current less the taper step while
/// over the constant voltage; the vote in force in the constant-current
/// stage, below the constant voltage in its stage, and on a session's first
/// sample; otherwise one ramp step up.
pub open spec fn next_vote(s: Session, config: Config, first_sample: bool, measured: i32, over_voltage: bool) -> (i32, bool) {
    if s.cut_off {
        (0, false)
    } else {
        match s.phase {
            ChargePhase::ConstantVoltage => {
                if over_voltage {
                    (taper::spec_next(measured as int, config.ufcs_taper_step_ma as int) as i32, false)
                } else {
                    (s.current_vote, false)
                }
            },
            ChargePhase::ConstantCurrent => (s.current_vote, false),
            ChargePhase::RampUp => {
                if first_sample {
                    (s.current_vote, false)
                } else {
                    let (v, reached) = ramp_up::spec_next(
                        s.current_vote as int,
                        s.ramp_step_ma as int,
                        config.ufcs_max_vote as int,
                    );
                    (v as i32, reached)
                }
            },
        }
    }
}

/// A session once a sample is seen: the cut-off is remembered, and reaching
/// the constant voltage starts the constant-voltage stage.
pub open spec fn observe_sample(s: Session, config: Config, p: BccParams) -> Session {
    Session {
        cut_off: s.cut_off || either_cell_at(p, config.charge_cutoff_mv),
        phase: if either_cell_at(p, config.constant_voltage_mv) {
            ChargePhase::ConstantVoltage
        } else {
            s.phase
        },
        ..s
    }
}

/// The step after a sample: the vote the sample calls for is asked for
/// when it differs from the vote in force; the cap, when reached, starts the
/// constant-current stage once it is in force.
pub open spec fn sample_step(s: Session, config: Config, first_sample: bool, p: BccParams) -> (ChargeState, ChargeRequest) {
    let observed = observe_sample(s, config, p);
    let (vote, reached) = next_vote(
        observed,
        config,
        first_sample,
        measured_current(p),
        either_cell_at(p, config.constant_voltage_mv),
    );
    if vote == observed.current_vote {
        (
            ChargeState {
                session: Some(
                    Session {
                        phase: if reached {
                            ChargePhase::ConstantCurrent
                        } else {
                            observed.phase
                        },
                        ..observed
                    },
                ),
                pending: ChargePending::Idle,
            },
            ChargeRequest::Done,
        )
    } else {
        (
            ChargeState {
                session: Some(observed),
                pending: ChargePending::Vote { vote, reached },
            },
            ChargeRequest::ApplyVote(vote),
        )
    }
}

/// Handling a UFCS charger's data: a new session votes its first vote; a
/// running one reads a sample.
pub open spec fn start_charge_data(session: Option<Session>, config: Config) -> (ChargeState, ChargeRequest) {
    match session {
        None => (
            ChargeState {
                session: None,
                pending: ChargePending::InitialVote {
                    vote: initial_vote(config),
                    step: config.ufcs_ramp_step_ma,
                },
            },
            ChargeRequest::ApplyVote(initial_vote(config)),
        ),
        Some(s) => (
            ChargeState { session: Some(s), pending: ChargePending::Params { first_sample: false } },
            ChargeRequest::ReadParams,
        ),
    }
}

/// Start of a tick with the previous and the current charging status:
/// nothing is done unless charging; then the charger type is read.
pub open spec fn charge_begin(c: ChargeState, previous: Option<bool>, charging: bool) -> (ChargeState, ChargeRequest) {
    if !charging {
        (ChargeState { pending: ChargePending::Idle, ..c }, ChargeRequest::Done)
    } else {
        (
            ChargeState { pending: ChargePending::ChargeType { previous, reads: 1 }, ..c },
            ChargeRequest::ReadChargeType,
        )
    }
}

/// A tick's next step once the outcome of its request is known. A UFCS
/// charger seen when charging was not already established starts a new
/// session; another charger type is read again, up to the limit, only then.
/// A failed read ends the tick; a failed vote ends it with the state as it
/// was. An outcome that answers no pending request ends the tick.
pub open spec fn charge_resume(c: ChargeState, config: Config, outcome: ChargeOutcome) -> (ChargeState, ChargeRequest) {
    let idle = ChargeState { pending: ChargePending::Idle, ..c };
    match c.pending {
        ChargePending::ChargeType { previous, reads } => match outcome {
            ChargeOutcome::ChargeType(Some(t)) => {
                if t == UFCS_CHARGE_TYPE {
                    start_charge_data(
                        if previous != Some(true) {
                            None
                        } else {
                            c.session
                        },
                        config,
                    )
                } else if previous != Some(true) && reads < CHARGE_TYPE_READS_MAX {
                    (
                        ChargeState {
                            pending: ChargePending::ChargeType { previous, reads: (reads + 1) as u32 },
                            ..c
                        },
                        ChargeRequest::ReadChargeType,
                    )
                } else {
                    (idle, ChargeRequest::Done)
                }
            },
            _ => (idle, ChargeRequest::Done),
        },
        ChargePending::InitialVote { vote, step } => match outcome {
            ChargeOutcome::VoteApplied(true) => (
                ChargeState {
                    session: Some(
                        Session {
                            current_vote: vote,
                            ramp_step_ma: step,
                            phase: ChargePhase::RampUp,
                            cut_off: false,
                        },
                    ),
                    pending: ChargePending::Params { first_sample: true },
                },
                ChargeRequest::ReadParams,
            ),
            _ => (idle, ChargeRequest::Done),
        },
        ChargePending::Params { first_sample } => match (outcome, c.session) {
            (ChargeOutcome::Params(Some(p)), Some(s)) => sample_step(s, config, first_sample, p),
            _ => (idle, ChargeRequest::Done),
        },
        ChargePending::Vote { vote, reached } => match (outcome, c.session) {
            (ChargeOutcome::VoteApplied(true), Some(s)) => (
                ChargeState {
                    session: Some(
                        Session {
                            current_vote: vote,
                            phase: if reached {
                                ChargePhase::ConstantCurrent
                            } else {
                                s.phase
                            },
                            ..s
                        },
                    ),
                    pending: ChargePending::Idle,
                },
                ChargeRequest::Done,
            ),
            _ => (idle, ChargeRequest::Done),
        },
        ChargePending::Idle => (idle, ChargeRequest::Done),
    }
}

/// The charge controller's per-sample state: the battery display logic and
/// the charge control logic.
pub struct Looper {
    battery_display: BatteryDisplay,
    charge: ChargeState,
}

impl View for Looper {
    type V = LooperState;

    closed spec fn view(&self) -> LooperState {
        LooperState { display: self.battery_display@, charge: self.charge }
    }
}

impl Default for Looper {
    fn default() -> (r: Self)
        ensures
            r@ == (LooperState { display: display_initial(), charge: charge_initial() }),
    {
        Looper::new()
    }
}

fn either_cell_at_exec(p: &BccParams, threshold_mv: i32) -> (r: bool)
    ensures
        r == either_cell_at(*p, threshold_mv),
{
    p.cell_voltage_1_mv >= threshold_mv as i64 || p.cell_voltage_2_mv >= threshold_mv as i64
}

fn measured_current_exec(p: &BccParams) -> (r: i32)
    ensures
        r == measured_current(*p),
{
    let c = p.current_ma;
    if c <= -(i32::MAX as i64) || c >= i32::MAX as i64 {
        i32::MAX
    } else if c < 0 {
        (-c) as i32
    } else {
        c as i32
    }
}

impl Looper {
    /// A controller that has seen no tick yet.
    pub fn new() -> (r: Self)
        ensures
            r@ == (LooperState { display: display_initial(), charge: charge_initial() }),
    {
        Looper {
            battery_display: BatteryDisplay::new(),
            charge: ChargeState { session: None, pending: ChargePending::Idle },
        }
    }

    /// The charge session in force, if any.
    pub fn session(&self) -> (r: Option<Session>)
        ensures
            r == self@.charge.session,
    {
        self.charge.session
    }

    /// Starts the display part of a tick with the current charging status.
    pub fn handle_battery_display(&mut self, charging: bool) -> (r: DisplayRequest)
        ensures
            (final(self)@.display, r) == display_begin(old(self)@.display, charging),
            final(self)@.charge == old(self)@.charge,
    {
        self.battery_display.handle(charging)
    }

    /// Continues the display part of a tick with the outcome of its last request.
    pub fn resume_battery_display(&mut self, outcome: DisplayOutcome) -> (r: DisplayRequest)
        ensures
            (final(self)@.display, r) == display_resume(old(self)@.display, outcome),
            final(self)@.charge == old(self)@.charge,
    {
        self.battery_display.resume(outcome)
    }

    /// Starts the charge control part of a tick with the previous charging
    /// status (as the display part reported it) and the current one.
    pub fn handle_battery_status(&mut self, previous: Option<bool>, charging: bool) -> (r: ChargeRequest)
        ensures
            (final(self)@.charge, r) == charge_begin(old(self)@.charge, previous, charging),
            final(self)@.display == old(self)@.display,
    {
        if !charging {
            self.charge = ChargeState { session: self.charge.session, pending: ChargePending::Idle };
            ChargeRequest::Done
        } else {
            self.charge = ChargeState {
                session: self.charge.session,
                pending: ChargePending::ChargeType { previous, reads: 1 },
            };
            ChargeRequest::ReadChargeType
        }
    }

    /// Continues the charge control part of a tick with the outcome of its
    /// last request, under the profile in force.
    pub fn resume_battery_status(&mut self, config: &Config, outcome: ChargeOutcome) -> (r: ChargeRequest)
        ensures
            (final(self)@.charge, r) == charge_resume(old(self)@.charge, *config, outcome),
            final(self)@.display == old(self)@.display,
    {
        let (next, request) = Self::charge_step(self.charge, config, outcome);
        self.charge = next;
        request
    }

    fn charge_step(c: ChargeState, config: &Config, outcome: ChargeOutcome) -> (r: (ChargeState, ChargeRequest))
        ensures
            r == charge_resume(c, *config, outcome),
    {
        let idle = ChargeState { session: c.session, pending: ChargePending::Idle };
        match c.pending {
            ChargePending::ChargeType { previous, reads } => {
                let established = match previous {
                    Some(was) => was,
                    None => false,
                };
                match outcome {
                    ChargeOutcome::ChargeType(Some(t)) => {
                        if t == UFCS_CHARGE_TYPE {
                            let session = if !established {
                                None
                            } else {
                                c.session
                            };
                            Self::start_charge_data(session, config)
                        } else if !established && reads < CHARGE_TYPE_READS_MAX {
                            (
                                ChargeState {
                                    session: c.session,
                                    pending: ChargePending::ChargeType { previous, reads: reads + 1 },
                                },
                                ChargeRequest::ReadChargeType,
                            )
                        } else {
                            (idle, ChargeRequest::Done)
                        }
                    },
                    _ => (idle, ChargeRequest::Done),
                }
            },
            ChargePending::InitialVote { vote, step } => match outcome {
                ChargeOutcome::VoteApplied(true) => (
                    ChargeState {
                        session: Some(
                            Session {
                                current_vote: vote,
                                ramp_step_ma: step,
                                phase: ChargePhase::RampUp,
                                cut_off: false,
                            },
                        ),
                        pending: ChargePending::Params { first_sample: true },
                    },
                    ChargeRequest::ReadParams,
                ),
                _ => (idle, ChargeRequest::Done),
            },
            ChargePending::Params { first_sample } => match (outcome, c.session) {
                (ChargeOutcome::Params(Some(p)), Some(s)) => Self::sample_step(s, config, first_sample, &p),
                _ => (idle, ChargeRequest::Done),
            },
            ChargePending::Vote { vote, reached } => match (outcome, c.session) {
                (ChargeOutcome::VoteApplied(true), Some(s)) => (
                    ChargeState {
                        session: Some(
                            Session {
                                current_vote: vote,
                                ramp_step_ma: s.ramp_step_ma,
                                phase: if reached {
                                    ChargePhase::ConstantCurrent
                                } else {
                                    s.phase
                                },
                                cut_off: s.cut_off,
                            },
                        ),
                        pending: ChargePending::Idle,
                    },
                    ChargeRequest::Done,
                ),
                _ => (idle, ChargeRequest::Done),
            },
            ChargePending::Idle => (idle, ChargeRequest::Done),
        }
    }

    fn initial_vote(config: &Config) -> (r: i32)
        ensures
            r == initial_vote(*config),
    {
        let step = config.ufcs_ramp_step_ma;
        if step <= i32::MAX as u32 && (step as i32) <= config.ufcs_max_vote {
            step as i32
        } else {
            config.ufcs_max_vote
        }
    }

    fn start_charge_data(session: Option<Session>, config: &Config) -> (r: (ChargeState, ChargeRequest))
        ensures
            r == start_charge_data(session, *config),
    {
        match session {
            None => {
                let vote = Self::initial_vote(config);
                (
                    ChargeState {
                        session: None,
                        pending: ChargePending::InitialVote { vote, step: config.ufcs_ramp_step_ma },
                    },
                    ChargeRequest::ApplyVote(vote),
                )
            },
            Some(s) => (
                ChargeState {
                    session: Some(s),
                    pending: ChargePending::Params { first_sample: false },
                },
                ChargeRequest::ReadParams,
            ),
        }
    }

    fn next_vote(s: &Session, config: &Config, first_sample: bool, measured: i32, over_voltage: bool) -> (r: (i32, bool))
        ensures
            r == next_vote(*s, *config, first_sample, measured, over_voltage),
    {
        if s.cut_off {
            return (0, false);
        }
        match s.phase {
            ChargePhase::ConstantVoltage => {
                if over_voltage {
                    (taper::next(measured, config), false)
                } else {
                    (s.current_vote, false)
                }
            },
            ChargePhase::ConstantCurrent => (s.current_vote, false),
            ChargePhase::RampUp => {
                if first_sample {
                    (s.current_vote, false)
                } else {
                    ramp_up::next(s.current_vote, s.ramp_step_ma, config)
                }
            },
        }
    }

    fn sample_step(s: Session, config: &Config, first_sample: bool, p: &BccParams) -> (r: (ChargeState, ChargeRequest))
        ensures
            r == sample_step(s, *config, first_sample, *p),
    {
        let over_voltage = either_cell_at_exec(p, config.constant_voltage_mv);
        let cut = either_cell_at_exec(p, config.charge_cutoff_mv);
        let observed = Session {
            current_vote: s.current_vote,
            ramp_step_ma: s.ramp_step_ma,
            phase: if over_voltage {
                ChargePhase::ConstantVoltage
            } else {
                s.phase
            },
            cut_off: s.cut_off || cut,
        };
        let (vote, reached) = Self::next_vote(
            &observed,
            config,
            first_sample,
            measured_current_exec(p),
            over_voltage,
        );
        if vote == observed.current_vote {
            (
                ChargeState {
                    session: Some(
                        Session {
                            current_vote: observed.current_vote,
                            ramp_step_ma: observed.ramp_step_ma,
                            phase: if reached {
                                ChargePhase::ConstantCurrent
                            } else {
                                observed.phase
                            },
                            cut_off: observed.cut_off,
                        },
                    ),
                    pending: ChargePending::Idle,
                },
                ChargeRequest::Done,
            )
        } else {
            (
                ChargeState {
                    session: Some(observed),
                    pending: ChargePending::Vote { vote, reached },
                },
                ChargeRequest::ApplyVote(vote),
            )
        }
    }
}

} // verus!
