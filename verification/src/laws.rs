//! Properties of the charge control and battery display state machines
//! that hold for every state, profile and outcome they speak of.

use vstd::prelude::*;
use crate::battery::BccParams;
use crate::battery_display::{
    BatteryDisplayAction, DisplayOutcome, DisplayPending, DisplayRequest, DisplayState,
    BATTERY_LEVEL_LOCK_THRESHOLD, display_begin, display_resume, pending_previous,
};
use crate::config::{profile_after_reload, Config};
use crate::looper::{
    ChargeOutcome, ChargePending, ChargePhase, ChargeRequest, ChargeState, Session,
    CHARGE_TYPE_READS_MAX, UFCS_CHARGE_TYPE, charge_begin, charge_initial, charge_resume,
    either_cell_at, initial_vote, measured_current,
};
use crate::ramp_up;
use crate::taper;

verus! {

// ---------------------------------------------------------------- profile

/// The profile in force is always a valid one: a reload takes only a valid
/// profile and otherwise keeps the last valid one.
pub proof fn law_profile_in_force_stays_valid(current: Config, candidate: Option<Config>)
    requires
        current.valid(),
    ensures
        profile_after_reload(current, candidate).valid(),
        candidate is Some && candidate->0.valid() ==> profile_after_reload(current, candidate)
            == candidate->0,
        !(candidate is Some && candidate->0.valid()) ==> profile_after_reload(current, candidate)
            == current,
{
}

// ---------------------------------------------------------------- ramp and taper steps

/// One ramp step adds the step to the vote while the sum stays within the
/// cap, and reports no end of the ramp; once the sum (stopped at
/// `i32::MAX`) passes the cap, the cap is voted and the ramp is over. The
/// result never passes the cap and never falls below the vote it started from
/// unless the cap is below it.
pub proof fn law_ramp_up_adds_the_step_within_the_cap(current: i32, step: u32, max_vote: i32)
    ensures
        ({
            let (v, reached) = ramp_up::spec_next(current as int, step as int, max_vote as int);
            &&& current + step <= max_vote ==> v == current + step && !reached
            &&& reached <==> (current + step > max_vote && max_vote < i32::MAX)
            &&& reached ==> v == max_vote
            &&& !reached ==> (v == current + step || (v == i32::MAX && current + step > i32::MAX))
            &&& v <= max_vote
            &&& v >= current || v == max_vote
        }),
{
}

/// One taper step is the current less the taper step, never below zero:
/// the result is the least value that is both at least zero and at least
/// `current - taper_step`.
pub proof fn law_taper_lowers_by_the_step(current: i32, taper_step: u32)
    ensures
        ({
            let v = taper::spec_next(current as int, taper_step as int);
            &&& v >= 0
            &&& v >= current - taper_step
            &&& v == 0 || v == current - taper_step
            &&& current - taper_step > 0 ==> v == current - taper_step
        }),
{
}

// ---------------------------------------------------------------- charge control

/// The charge state's invariant: a first vote is only pending without a
/// session, a sample or a vote only with one; the charger type is read at
/// most the allowed number of times; no vote in force or pending is negative.
pub open spec fn charge_wf(c: ChargeState) -> bool {
    &&& (c.session matches Some(s) ==> s.current_vote >= 0)
    &&& match c.pending {
        ChargePending::Idle => true,
        ChargePending::ChargeType { previous, reads } => 1 <= reads <= CHARGE_TYPE_READS_MAX,
        ChargePending::InitialVote { vote, step } => c.session is None && vote >= 0,
        ChargePending::Params { first_sample } => c.session is Some,
        ChargePending::Vote { vote, reached } => c.session is Some && vote >= 0,
    }
}

/// How far a tick is from its end: each step of a tick lowers it.
pub open spec fn pending_rank(p: ChargePending) -> int {
    match p {
        ChargePending::Idle => 0,
        ChargePending::Vote { .. } => 1,
        ChargePending::Params { .. } => 2,
        ChargePending::InitialVote { .. } => 3,
        ChargePending::ChargeType { reads, .. } => 4 + CHARGE_TYPE_READS_MAX - reads,
    }
}

/// The invariant holds before the first tick.
pub proof fn law_charge_initial_wf()
    ensures
        charge_wf(charge_initial()),
{
}

/// Under a valid profile every step keeps the invariant, so no vote that is
/// ever asked for is negative; every tick ends (each step brings it closer
/// to its end), and a finished tick leaves nothing pending.
pub proof fn law_charge_step_wf(c: ChargeState, config: Config, previous: Option<bool>, charging: bool, outcome: ChargeOutcome)
    requires
        charge_wf(c),
        config.valid(),
    ensures
        charge_wf(charge_begin(c, previous, charging).0),
        charge_wf(charge_resume(c, config, outcome).0),
        charge_resume(c, config, outcome).1 matches ChargeRequest::ApplyVote(v) ==> v >= 0,
        charge_resume(c, config, outcome).1 != ChargeRequest::Done ==> pending_rank(
            charge_resume(c, config, outcome).0.pending,
        ) < pending_rank(c.pending),
        charge_resume(c, config, outcome).1 == ChargeRequest::Done
            ==> charge_resume(c, config, outcome).0.pending == ChargePending::Idle,
        charge_begin(c, previous, charging).1 == ChargeRequest::Done ==> charge_begin(
            c,
            previous,
            charging,
        ).0.pending == ChargePending::Idle,
{
}

/// Nothing is read or voted while the battery is not charging.
pub proof fn law_not_charging_does_nothing(c: ChargeState, previous: Option<bool>)
    ensures
        charge_begin(c, previous, false) == (ChargeState { pending: ChargePending::Idle, ..c }, ChargeRequest::Done),
{
}

/// The first vote of a session is the ramp step capped at the limit; under a
/// valid profile it is positive.
pub proof fn law_initial_vote_is_capped_step(config: Config)
    ensures
        initial_vote(config) as int == if (config.ufcs_ramp_step_ma as int) < (config.ufcs_max_vote as int) {
            config.ufcs_ramp_step_ma as int
        } else {
            config.ufcs_max_vote as int
        },
        config.valid() ==> initial_vote(config) > 0,
{
}

/// Every charging tick starts with the first of its charger-type reads,
/// whatever the state and the previous status; a non-charging tick asks for
/// nothing.
pub proof fn law_charging_tick_starts_with_first_read(c: ChargeState, previous: Option<bool>)
    ensures
        charge_begin(c, previous, true) == (
            ChargeState {
                session: c.session,
                pending: ChargePending::ChargeType { previous, reads: 1 },
            },
            ChargeRequest::ReadChargeType,
        ),
        charge_begin(c, previous, false).1 == ChargeRequest::Done,
{
}

/// Right after plug-in (charging not already established), a charger is read
/// again while it is not yet seen as UFCS, four reads in all: a UFCS type on
/// the second, third or fourth read still starts the new session in the
/// same tick with the ramp step capped at the limit as its first vote; a
/// fourth non-UFCS read ends the tick with the session untouched.
pub proof fn law_charger_is_reread_after_plug_in(
    c: ChargeState,
    config: Config,
    previous: Option<bool>,
    t1: u32,
    t2: u32,
    t3: u32,
    t4: u32,
)
    requires
        previous != Some(true),
        t1 != UFCS_CHARGE_TYPE,
        t2 != UFCS_CHARGE_TYPE,
        t3 != UFCS_CHARGE_TYPE,
        t4 != UFCS_CHARGE_TYPE,
    ensures
        ({
            let first_vote = if (config.ufcs_ramp_step_ma as int) < (config.ufcs_max_vote as int) {
                config.ufcs_ramp_step_ma as i32
            } else {
                config.ufcs_max_vote
            };
            let s0 = charge_begin(c, previous, true).0;
            let (s1, r1) = charge_resume(s0, config, ChargeOutcome::ChargeType(Some(t1)));
            let (s2, r2) = charge_resume(s1, config, ChargeOutcome::ChargeType(Some(t2)));
            let (s3, r3) = charge_resume(s2, config, ChargeOutcome::ChargeType(Some(t3)));
            let (s4, r4) = charge_resume(s3, config, ChargeOutcome::ChargeType(Some(t4)));
            &&& r1 == ChargeRequest::ReadChargeType
            &&& r2 == ChargeRequest::ReadChargeType
            &&& r3 == ChargeRequest::ReadChargeType
            &&& r4 == ChargeRequest::Done
            &&& s4.session == c.session
            &&& charge_resume(s1, config, ChargeOutcome::ChargeType(Some(UFCS_CHARGE_TYPE))).1
                == ChargeRequest::ApplyVote(first_vote)
            &&& charge_resume(s2, config, ChargeOutcome::ChargeType(Some(UFCS_CHARGE_TYPE))).1
                == ChargeRequest::ApplyVote(first_vote)
            &&& charge_resume(s3, config, ChargeOutcome::ChargeType(Some(UFCS_CHARGE_TYPE))).1
                == ChargeRequest::ApplyVote(first_vote)
        }),
{
}

/// Once charging is established, the charger type is read once per tick: a
/// non-UFCS type ends the tick, and a UFCS type continues the running
/// session by reading a sample.
pub proof fn law_established_charge_reads_type_once(c: ChargeState, config: Config, t: u32)
    requires
        c.session is Some,
    ensures
        ({
            let s0 = charge_begin(c, Some(true), true).0;
            &&& t != UFCS_CHARGE_TYPE ==> charge_resume(s0, config, ChargeOutcome::ChargeType(Some(t))).1
                == ChargeRequest::Done
            &&& charge_resume(s0, config, ChargeOutcome::ChargeType(Some(UFCS_CHARGE_TYPE))) == (
                ChargeState {
                    session: c.session,
                    pending: ChargePending::Params { first_sample: false },
                },
                ChargeRequest::ReadParams,
            )
        }),
{
}

/// A UFCS charger seen when charging was not already established starts a
/// new session from its first vote, whatever the previous session was.
pub proof fn law_new_session_restarts(c: ChargeState, config: Config, previous: Option<bool>, reads: u32)
    requires
        c.pending == (ChargePending::ChargeType { previous, reads }),
        previous != Some(true),
    ensures
        charge_resume(c, config, ChargeOutcome::ChargeType(Some(UFCS_CHARGE_TYPE))) == (
            ChargeState {
                session: None,
                pending: ChargePending::InitialVote {
                    vote: initial_vote(config),
                    step: config.ufcs_ramp_step_ma,
                },
            },
            ChargeRequest::ApplyVote(initial_vote(config)),
        ),
{
}

/// Another charger type is never voted for: it is read again, at most up to
/// the limit and only when charging was not already established, and the
/// session is left as it was.
pub proof fn law_non_ufcs_charger_is_not_controlled(c: ChargeState, config: Config, previous: Option<bool>, reads: u32, t: u32)
    requires
        c.pending == (ChargePending::ChargeType { previous, reads }),
        t != UFCS_CHARGE_TYPE,
    ensures
        charge_resume(c, config, ChargeOutcome::ChargeType(Some(t))).0.session == c.session,
        charge_resume(c, config, ChargeOutcome::ChargeType(Some(t))).1 == if previous != Some(true)
            && reads < CHARGE_TYPE_READS_MAX {
            ChargeRequest::ReadChargeType
        } else {
            ChargeRequest::Done
        },
{
}

/// A failed read of the charger type or of a sample ends the tick with the
/// session as it was.
pub proof fn law_failed_read_changes_nothing(c: ChargeState, config: Config)
    ensures
        c.pending is ChargeType ==> charge_resume(c, config, ChargeOutcome::ChargeType(None)) == (
            ChargeState { pending: ChargePending::Idle, ..c },
            ChargeRequest::Done,
        ),
        c.pending is Params ==> charge_resume(c, config, ChargeOutcome::Params(None)) == (
            ChargeState { pending: ChargePending::Idle, ..c },
            ChargeRequest::Done,
        ),
{
}

/// A vote that fails leaves the session as it was (no new vote in force, no
/// new stage), so the next sample asks for it again.
pub proof fn law_failed_vote_changes_nothing(c: ChargeState, config: Config)
    requires
        c.pending is Vote || c.pending is InitialVote,
    ensures
        charge_resume(c, config, ChargeOutcome::VoteApplied(false)) == (
            ChargeState { pending: ChargePending::Idle, ..c },
            ChargeRequest::Done,
        ),
{
}

/// A vote that is applied is the vote in force afterwards.
pub proof fn law_applied_vote_is_in_force(c: ChargeState, config: Config, vote: i32, reached: bool)
    requires
        c.pending == (ChargePending::Vote { vote, reached }),
        c.session is Some,
    ensures
        charge_resume(c, config, ChargeOutcome::VoteApplied(true)).0.session matches Some(s)
            && s.current_vote == vote && (reached ==> s.phase == ChargePhase::ConstantCurrent),
{
}

/// Once either cell reaches the cut-off voltage the vote asked for is zero
/// (or zero is already in force), and the cut-off is remembered.
pub proof fn law_cutoff_votes_zero(c: ChargeState, config: Config, s: Session, first_sample: bool, p: BccParams)
    requires
        c.pending == (ChargePending::Params { first_sample }),
        c.session == Some(s),
        s.cut_off || either_cell_at(p, config.charge_cutoff_mv),
    ensures
        ({
            let (next, request) = charge_resume(c, config, ChargeOutcome::Params(Some(p)));
            &&& next.session matches Some(s2) && s2.cut_off
            &&& request == ChargeRequest::ApplyVote(0) || (request == ChargeRequest::Done
                && next.session->0.current_vote == 0)
        }),
{
}

/// While a session exists its cut-off stays set: no step of a well-formed
/// state clears it.
pub proof fn law_cutoff_is_kept(c: ChargeState, config: Config, outcome: ChargeOutcome, previous: Option<bool>, charging: bool)
    requires
        charge_wf(c),
        c.session matches Some(s) && s.cut_off,
    ensures
        charge_resume(c, config, outcome).0.session matches Some(s2) ==> s2.cut_off,
        charge_begin(c, previous, charging).0.session == c.session,
{
}

/// While ramping up, each sample below the constant voltage and the cut-off
/// raises the vote by the step locked at the session's start (not the
/// profile's current step), up to the limit; reaching the limit starts the
/// constant-current stage.
pub proof fn law_ramp_step(c: ChargeState, config: Config, s: Session, p: BccParams)
    requires
        c.pending == (ChargePending::Params { first_sample: false }),
        c.session == Some(s),
        s.phase == ChargePhase::RampUp,
        !s.cut_off,
        !either_cell_at(p, config.charge_cutoff_mv),
        !either_cell_at(p, config.constant_voltage_mv),
    ensures
        ({
            let (v, reached) = ramp_up::spec_next(
                s.current_vote as int,
                s.ramp_step_ma as int,
                config.ufcs_max_vote as int,
            );
            let (next, request) = charge_resume(c, config, ChargeOutcome::Params(Some(p)));
            &&& v != s.current_vote ==> request == ChargeRequest::ApplyVote(v as i32)
                && next.pending == (ChargePending::Vote { vote: v as i32, reached })
            &&& v == s.current_vote ==> request == ChargeRequest::Done && next.session == Some(
                Session {
                    phase: if reached {
                        ChargePhase::ConstantCurrent
                    } else {
                        ChargePhase::RampUp
                    },
                    ..s
                },
            )
        }),
{
}

/// Over the constant voltage (and below the cut-off) the vote follows the
/// measured current less the taper step, never below zero.
pub proof fn law_taper_follows_measured_current(c: ChargeState, config: Config, s: Session, first_sample: bool, p: BccParams)
    requires
        c.pending == (ChargePending::Params { first_sample }),
        c.session == Some(s),
        !s.cut_off,
        !either_cell_at(p, config.charge_cutoff_mv),
        either_cell_at(p, config.constant_voltage_mv),
    ensures
        ({
            let v = taper::spec_next(measured_current(p) as int, config.ufcs_taper_step_ma as int);
            let (next, request) = charge_resume(c, config, ChargeOutcome::Params(Some(p)));
            &&& next.session matches Some(s2) && s2.phase == ChargePhase::ConstantVoltage
            &&& v != s.current_vote ==> request == ChargeRequest::ApplyVote(v as i32)
            &&& v == s.current_vote ==> request == ChargeRequest::Done
            &&& v >= 0
        }),
{
}

/// In the constant-current stage, and in the constant-voltage stage once
/// below the constant voltage again, the vote in force is held.
pub proof fn law_vote_is_held(c: ChargeState, config: Config, s: Session, first_sample: bool, p: BccParams)
    requires
        c.pending == (ChargePending::Params { first_sample }),
        c.session == Some(s),
        s.phase == ChargePhase::ConstantCurrent || s.phase == ChargePhase::ConstantVoltage,
        !s.cut_off,
        !either_cell_at(p, config.charge_cutoff_mv),
        !either_cell_at(p, config.constant_voltage_mv),
    ensures
        charge_resume(c, config, ChargeOutcome::Params(Some(p))) == (
            ChargeState { session: Some(s), pending: ChargePending::Idle },
            ChargeRequest::Done,
        ),
{
}

/// Within a session the profile's ramp step plays no part: a profile
/// reloaded with another ramp step gives the same steps.
pub proof fn law_ramp_step_is_locked(c: ChargeState, config: Config, reloaded: Config, outcome: ChargeOutcome)
    requires
        c.pending is Params || c.pending is Vote,
        reloaded == (Config { ufcs_ramp_step_ma: reloaded.ufcs_ramp_step_ma, ..config }),
    ensures
        charge_resume(c, config, outcome) == charge_resume(c, reloaded, outcome),
{
}

// ---------------------------------------------------------------- battery display

/// When charging starts after a tick that saw it stopped, the display is
/// reset and the low-level lock is released.
pub proof fn law_display_reset_when_charging_starts(s: DisplayState)
    requires
        s.was_charging == Some(false),
    ensures
        display_begin(s, true).1 == DisplayRequest::Apply(BatteryDisplayAction::Reset),
        !display_begin(s, true).0.low_level_locked,
{
}

/// A reset that fails is asked for again on the next charging tick.
pub proof fn law_failed_reset_is_retried(s: DisplayState, previous: Option<bool>)
    requires
        s.pending == DisplayPending::Reset(previous),
    ensures
        display_begin(display_resume(s, DisplayOutcome::Applied(false)).0, true).1
            == DisplayRequest::Apply(BatteryDisplayAction::Reset),
{
}

/// While charging, the battery level is never read nor the display locked.
pub proof fn law_no_lock_while_charging(s: DisplayState)
    ensures
        display_begin(s, true).1 == DisplayRequest::Done(s.was_charging) || display_begin(s, true).1
            == DisplayRequest::Apply(BatteryDisplayAction::Reset),
{
}

/// A level below the threshold locks the display; any other level, or a
/// failed read, leaves it as it is.
pub proof fn law_low_level_locks_display(s: DisplayState, previous: Option<bool>, level: Option<u8>)
    requires
        s.pending == DisplayPending::Capacity(previous),
    ensures
        display_resume(s, DisplayOutcome::Capacity(level)).1 == if level is Some && level->0
            < BATTERY_LEVEL_LOCK_THRESHOLD {
            DisplayRequest::Apply(BatteryDisplayAction::LockLowLevel)
        } else {
            DisplayRequest::Done(previous)
        },
        display_resume(s, DisplayOutcome::Capacity(level)).0.low_level_locked == s.low_level_locked,
{
}

/// A lock is remembered only when it succeeded: a failed lock leaves the
/// display unlocked, so the next discharging tick reads the level and asks
/// for the lock again; a successful one is remembered.
pub proof fn law_lock_remembered_only_on_success(s: DisplayState, previous: Option<bool>, level: u8)
    requires
        s.pending == DisplayPending::Lock(previous),
    ensures
        display_resume(s, DisplayOutcome::Applied(false)).0.low_level_locked == s.low_level_locked,
        display_resume(s, DisplayOutcome::Applied(true)).0.low_level_locked,
        !s.low_level_locked ==> display_begin(
            display_resume(s, DisplayOutcome::Applied(false)).0,
            false,
        ).1 == DisplayRequest::ReadCapacity,
        !s.low_level_locked && level < BATTERY_LEVEL_LOCK_THRESHOLD ==> display_resume(
            display_begin(display_resume(s, DisplayOutcome::Applied(false)).0, false).0,
            DisplayOutcome::Capacity(Some(level)),
        ).1 == DisplayRequest::Apply(BatteryDisplayAction::LockLowLevel),
{
}

/// A discharging tick on an unlocked display whose level reads below the
/// threshold asks for the lock; if the lock fails, the next such tick asks
/// for it again.
pub proof fn law_failed_lock_is_retried(s: DisplayState, level: u8)
    requires
        !s.low_level_locked,
        level < BATTERY_LEVEL_LOCK_THRESHOLD,
    ensures
        ({
            let (s1, r1) = display_begin(s, false);
            let (s2, r2) = display_resume(s1, DisplayOutcome::Capacity(Some(level)));
            let (s3, _) = display_resume(s2, DisplayOutcome::Applied(false));
            let (s4, r4) = display_begin(s3, false);
            let (_, r5) = display_resume(s4, DisplayOutcome::Capacity(Some(level)));
            &&& r1 == DisplayRequest::ReadCapacity
            &&& r2 == DisplayRequest::Apply(BatteryDisplayAction::LockLowLevel)
            &&& !s3.low_level_locked
            &&& r4 == DisplayRequest::ReadCapacity
            &&& r5 == DisplayRequest::Apply(BatteryDisplayAction::LockLowLevel)
        }),
{
}

/// Once locked, the display is not locked again (nor the level read) until
/// charging starts.
pub proof fn law_display_locked_once(s: DisplayState)
    requires
        s.low_level_locked,
    ensures
        display_begin(s, false) == (
            DisplayState { was_charging: Some(false), pending: DisplayPending::Idle, ..s },
            DisplayRequest::Done(s.was_charging),
        ),
{
}

/// A tick reports the charging status of the tick before it.
pub proof fn law_display_reports_previous_status(s: DisplayState, charging: bool, outcome: DisplayOutcome)
    ensures
        display_begin(s, charging).1 == DisplayRequest::Done(s.was_charging) || pending_previous(
            display_begin(s, charging).0.pending,
        ) == s.was_charging,
        display_begin(s, charging).0.was_charging == Some(charging),
        !(display_begin(s, charging).1 is Done) ==> (display_resume(
            display_begin(s, charging).0,
            outcome,
        ).1 matches DisplayRequest::Done(p) ==> p == s.was_charging),
{
}

} // verus!
