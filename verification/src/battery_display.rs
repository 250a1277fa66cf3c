//! The battery level shown by Android: locked at a low level while the
//! battery is nearly empty and not charging, and reset to the real value
//! when charging starts.
//!
//! The logic is a state machine. A status tick starts with
//! [`BatteryDisplay::handle`]; each [`DisplayRequest`] it returns is carried
//! out by the caller, whose [`DisplayOutcome`] goes back in through
//! [`BatteryDisplay::resume`], until the request is `Done`.

use vstd::prelude::*;

verus! {

/// Battery levels below this are locked on the display while discharging.
pub const BATTERY_LEVEL_LOCK_THRESHOLD: u8 = 3;

/// A change to what the system shows as the battery state.
#[derive(Clone, Copy, Debug, PartialEq, Eq, Structural)]
pub enum BatteryDisplayAction {
    /// Let the system show the real battery state again.
    Reset,
    /// Pin the displayed level at the locked low level.
    LockLowLevel,
}

impl BatteryDisplayAction {
    /// The arguments of `dumpsys battery` that carry the action out:
    /// `reset`, or `set level 2` to pin the level at two percent.
    pub open spec fn spec_dumpsys_args(self) -> Seq<Seq<char>> {
        match self {
            BatteryDisplayAction::Reset => seq!["reset"@],
            BatteryDisplayAction::LockLowLevel => seq!["set"@, "level"@, "2"@],
        }
    }

    /// The arguments of `dumpsys battery` that carry the action out.
    pub fn dumpsys_args(&self) -> (r: &'static [&'static str])
        ensures
            r@.len() == self.spec_dumpsys_args().len(),
            forall|i: int| 0 <= i < r@.len() ==> #[trigger] r@[i]@ == self.spec_dumpsys_args()[i],
    {
        match self {
            BatteryDisplayAction::Reset => {
                let args: &'static [&'static str] = &["reset"];
                args
            },
            BatteryDisplayAction::LockLowLevel => {
                let args: &'static [&'static str] = &["set", "level", "2"];
                args
            },
        }
    }
}

/// What the display logic needs the caller to do next.
#[derive(Clone, Copy, Debug, PartialEq, Eq, Structural)]
pub enum DisplayRequest {
    /// Read the battery level and report it.
    ReadCapacity,
    /// Carry out the action and report whether it succeeded.
    Apply(BatteryDisplayAction),
    /// The tick is over; carries the charging status of the previous tick.
    Done(Option<bool>),
}

/// What came of the last request.
#[derive(Clone, Copy, Debug, PartialEq, Eq, Structural)]
pub enum DisplayOutcome {
    /// The battery level, or `None` when it could not be read.
    Capacity(Option<u8>),
    /// Whether the requested action succeeded.
    Applied(bool),
}

/// The request a tick waits on, with the previous charging status it will report.
#[derive(Clone, Copy, Debug, PartialEq, Eq, Structural)]
pub enum DisplayPending {
    Idle,
    Capacity(Option<bool>),
    Reset(Option<bool>),
    Lock(Option<bool>),
}

/// The display logic's state.
#[derive(Clone, Copy, Debug, PartialEq, Eq, Structural)]
pub struct DisplayState {
    /// Charging status seen by the last tick.
    pub was_charging: Option<bool>,
    /// Whether the low level is currently locked on the display.
    pub low_level_locked: bool,
    /// The request the current tick waits on.
    pub pending: DisplayPending,
}

/// The state before the first tick.
pub open spec fn display_initial() -> DisplayState {
    DisplayState { was_charging: None, low_level_locked: false, pending: DisplayPending::Idle }
}

/// Start of a tick with the current charging status: when charging has just
/// started the display is reset; while discharging and not yet locked the
/// battery level is read; otherwise the tick ends at once.
pub open spec fn display_begin(s: DisplayState, charging: bool) -> (DisplayState, DisplayRequest) {
    let previous = s.was_charging;
    if previous == Some(false) && charging {
        (
            DisplayState {
                was_charging: Some(charging),
                low_level_locked: false,
                pending: DisplayPending::Reset(previous),
            },
            DisplayRequest::Apply(BatteryDisplayAction::Reset),
        )
    } else if charging || s.low_level_locked {
        (
            DisplayState { was_charging: Some(charging), pending: DisplayPending::Idle, ..s },
            DisplayRequest::Done(previous),
        )
    } else {
        (
            DisplayState {
                was_charging: Some(charging),
                pending: DisplayPending::Capacity(previous),
                ..s
            },
            DisplayRequest::ReadCapacity,
        )
    }
}

/// The previous charging status that the pending request will report.
pub open spec fn pending_previous(p: DisplayPending) -> Option<bool> {
    match p {
        DisplayPending::Idle => None,
        DisplayPending::Capacity(previous) => previous,
        DisplayPending::Reset(previous) => previous,
        DisplayPending::Lock(previous) => previous,
    }
}

/// A tick's next step once the outcome of its request is known: a level below
/// the threshold locks the display; a failed reset is retried on the next
/// tick (the last status is taken back to "not charging"); a successful lock
/// is remembered. An outcome that answers no pending request ends the tick.
pub open spec fn display_resume(s: DisplayState, outcome: DisplayOutcome) -> (DisplayState, DisplayRequest) {
    let idle = DisplayState { pending: DisplayPending::Idle, ..s };
    match (s.pending, outcome) {
        (DisplayPending::Capacity(previous), DisplayOutcome::Capacity(level)) => {
            if level is Some && level->0 < BATTERY_LEVEL_LOCK_THRESHOLD {
                (
                    DisplayState { pending: DisplayPending::Lock(previous), ..s },
                    DisplayRequest::Apply(BatteryDisplayAction::LockLowLevel),
                )
            } else {
                (idle, DisplayRequest::Done(previous))
            }
        },
        (DisplayPending::Reset(previous), DisplayOutcome::Applied(ok)) => {
            if ok {
                (idle, DisplayRequest::Done(previous))
            } else {
                (DisplayState { was_charging: Some(false), ..idle }, DisplayRequest::Done(previous))
            }
        },
        (DisplayPending::Lock(previous), DisplayOutcome::Applied(ok)) => {
            if ok {
                (DisplayState { low_level_locked: true, ..idle }, DisplayRequest::Done(previous))
            } else {
                (idle, DisplayRequest::Done(previous))
            }
        },
        _ => (idle, DisplayRequest::Done(pending_previous(s.pending))),
    }
}

/// The battery display logic.
pub struct BatteryDisplay {
    state: DisplayState,
}

impl View for BatteryDisplay {
    type V = DisplayState;

    closed spec fn view(&self) -> DisplayState {
        self.state
    }
}

impl BatteryDisplay {
    /// The display logic before any tick: no status seen, nothing locked.
    pub fn new() -> (r: Self)
        ensures
            r@ == display_initial(),
    {
        BatteryDisplay {
            state: DisplayState {
                was_charging: None,
                low_level_locked: false,
                pending: DisplayPending::Idle,
            },
        }
    }

    /// Starts a tick with the current charging status.
    pub fn handle(&mut self, charging: bool) -> (r: DisplayRequest)
        ensures
            (final(self)@, r) == display_begin(old(self)@, charging),
    {
        let s = self.state;
        let previous = s.was_charging;
        let entered_charging = match previous {
            Some(was) => !was && charging,
            None => false,
        };
        if entered_charging {
            self.state = DisplayState {
                was_charging: Some(charging),
                low_level_locked: false,
                pending: DisplayPending::Reset(previous),
            };
            DisplayRequest::Apply(BatteryDisplayAction::Reset)
        } else if charging || s.low_level_locked {
            self.state = DisplayState {
                was_charging: Some(charging),
                low_level_locked: s.low_level_locked,
                pending: DisplayPending::Idle,
            };
            DisplayRequest::Done(previous)
        } else {
            self.state = DisplayState {
                was_charging: Some(charging),
                low_level_locked: s.low_level_locked,
                pending: DisplayPending::Capacity(previous),
            };
            DisplayRequest::ReadCapacity
        }
    }

    /// Continues the tick with the outcome of its last request.
    pub fn resume(&mut self, outcome: DisplayOutcome) -> (r: DisplayRequest)
        ensures
            (final(self)@, r) == display_resume(old(self)@, outcome),
    {
        let s = self.state;
        let idle = DisplayState {
            was_charging: s.was_charging,
            low_level_locked: s.low_level_locked,
            pending: DisplayPending::Idle,
        };
        match (s.pending, outcome) {
            (DisplayPending::Capacity(previous), DisplayOutcome::Capacity(level)) => {
                let low = match level {
                    Some(l) => l < BATTERY_LEVEL_LOCK_THRESHOLD,
                    None => false,
                };
                if low {
                    self.state = DisplayState {
                        was_charging: s.was_charging,
                        low_level_locked: s.low_level_locked,
                        pending: DisplayPending::Lock(previous),
                    };
                    DisplayRequest::Apply(BatteryDisplayAction::LockLowLevel)
                } else {
                    self.state = idle;
                    DisplayRequest::Done(previous)
                }
            },
            (DisplayPending::Reset(previous), DisplayOutcome::Applied(ok)) => {
                if ok {
                    self.state = idle;
                } else {
                    self.state = DisplayState {
                        was_charging: Some(false),
                        low_level_locked: s.low_level_locked,
                        pending: DisplayPending::Idle,
                    };
                }
                DisplayRequest::Done(previous)
            },
            (DisplayPending::Lock(previous), DisplayOutcome::Applied(ok)) => {
                if ok {
                    self.state = DisplayState {
                        was_charging: s.was_charging,
                        low_level_locked: true,
                        pending: DisplayPending::Idle,
                    };
                } else {
                    self.state = idle;
                }
                DisplayRequest::Done(previous)
            },
            _ => {
                self.state = idle;
                let previous = match s.pending {
                    DisplayPending::Idle => None,
                    DisplayPending::Capacity(p) => p,
                    DisplayPending::Reset(p) => p,
                    DisplayPending::Lock(p) => p,
                };
                DisplayRequest::Done(previous)
            },
        }
    }
}

} // verus!
