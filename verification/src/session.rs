//! Session state of the lock state machine and its transition relation.
//!
//! The transition relation is ghost code: the executable machine in
//! [`crate::machine`] is proved to follow [`transition`] tick by tick.

use crate::geometry::DisplayRectangle;
use vstd::prelude::*;

verus! {

/// Number of ticks for which confinement is kept alive after the condition
/// that engaged it has ceased to hold.
pub const GRACE_MAX: u32 = 50;

/// Time between two ticks, in milliseconds. Together with [`GRACE_MAX`] it
/// gives the grace period of [`GRACE_PERIOD_MS`].
pub const SAMPLING_PERIOD_MS: u64 = 100;

/// The grace period as a duration, in milliseconds.
pub const GRACE_PERIOD_MS: u64 = 5000;

/// The grace period is [`GRACE_MAX`] ticks of [`SAMPLING_PERIOD_MS`] each.
pub proof fn lemma_grace_period_is_grace_max_ticks()
    ensures
        GRACE_PERIOD_MS == GRACE_MAX * SAMPLING_PERIOD_MS,
{
}

/// Identifier of a window. The window system may hand the same value to
/// another window once the first one is gone, so a handle means something
/// only while it is being reported.
#[derive(Clone, Copy, Debug, PartialEq, Eq, Structural)]
pub struct WindowHandle(pub isize);

impl WindowHandle {
    /// The handle for a raw identifier; the null identifier `0` names no
    /// window.
    pub fn from_raw(raw: isize) -> (handle: Option<WindowHandle>)
        ensures
            handle == if raw == 0 {
                None
            } else {
                Some(WindowHandle(raw))
            },
    {
        if raw == 0 {
            None
        } else {
            Some(WindowHandle(raw))
        }
    }
}

/// Whether confinement is engaged, and if so to what.
#[derive(Clone, Copy, Debug, PartialEq, Eq)]
pub enum LockState {
    Unlocked,
    Locked {
        /// The window whose fullscreen verdict engaged the confinement.
        window: WindowHandle,
        /// The rectangle being enforced.
        region: DisplayRectangle,
        /// Ticks of tolerance left before the confinement is released.
        grace_ticks: u32,
    },
}

/// A request to the cursor clipper.
#[derive(Clone, Copy, Debug, PartialEq, Eq)]
pub enum Command {
    /// Confine the cursor to the rectangle.
    Apply(DisplayRectangle),
    /// Lift any confinement.
    Release,
}

/// What happened during a tick, for the log.
#[derive(Clone, Copy, Debug, PartialEq, Eq)]
pub enum Event {
    /// Confinement was engaged on a window or region that was not the one
    /// already enforced.
    Locked(DisplayRectangle),
    /// The grace period ran out while no window had the foreground.
    ReleasedNoForeground,
    /// The grace period ran out on a foreground window that is not
    /// fullscreen.
    ReleasedExitedFullscreen,
    /// The window switcher took the foreground.
    SwitcherStarted,
    /// The switch gesture ended on a window other than the remembered one.
    SwitcherEndedDifferentWindow,
    /// The switch gesture ended on the remembered window.
    SwitcherEndedSameWindow,
    /// The switch gesture ended and no window had been remembered.
    SwitcherEndedNoMemory,
    /// A fullscreen window was focused while the session was suspended.
    ReengagedAfterSuspension,
}

/// All that the machine carries from one tick to the next.
#[derive(Clone, Copy, Debug, PartialEq, Eq)]
pub struct SessionState {
    pub lock: LockState,
    /// The window switcher holds the foreground.
    pub switcher_active: bool,
    /// The window that was locked when the switcher took the foreground.
    pub remembered_window: Option<WindowHandle>,
    /// The last switch gesture ended away from the remembered window;
    /// nothing is confined until a fullscreen window is focused again.
    pub suspended: bool,
}

/// What one tick observes.
#[derive(Clone, Copy, Debug, PartialEq, Eq)]
pub struct TickInput {
    /// The window that has the input focus, if any.
    pub foreground: Option<WindowHandle>,
    /// The foreground window is the window switcher.
    pub is_switcher: bool,
    /// The window judged fullscreen and the display it fills, if the
    /// foreground window was judged so.
    pub fullscreen_region: Option<(WindowHandle, DisplayRectangle)>,
}

/// Result of a transition: the next state, the commands for the cursor
/// clipper and the events for the log, each in the order of emission.
pub struct Outcome {
    pub state: SessionState,
    pub commands: Seq<Command>,
    pub events: Seq<Event>,
}

impl SessionState {
    /// The state at start-up: unlocked, no switcher, nothing remembered, not
    /// suspended.
    pub open spec fn initial() -> SessionState {
        SessionState {
            lock: LockState::Unlocked,
            switcher_active: false,
            remembered_window: None,
            suspended: false,
        }
    }

    /// The states that the machine can be in. A locked session has between
    /// one and [`GRACE_MAX`] ticks of grace; a suspended session is unlocked
    /// and remembers nothing; a window is remembered only during a switch
    /// gesture.
    pub open spec fn well_formed(self) -> bool {
        &&& self.lock matches LockState::Locked { grace_ticks, .. } ==> 1 <= grace_ticks
            <= GRACE_MAX
        &&& self.suspended ==> self.lock is Unlocked && self.remembered_window is None
        &&& self.remembered_window is Some ==> self.switcher_active
    }

    /// The locked window, if any.
    pub open spec fn locked_window(self) -> Option<WindowHandle> {
        match self.lock {
            LockState::Locked { window, .. } => Some(window),
            LockState::Unlocked => None,
        }
    }

    /// Confinement is engaged on exactly this window and region.
    pub open spec fn enforces(self, window: WindowHandle, region: DisplayRectangle) -> bool {
        &&& self.lock matches LockState::Locked { window: w, region: r, .. }
        &&& w == window
        &&& r == region
    }
}

/// Nothing changes and nothing is emitted.
pub open spec fn stay(s: SessionState) -> Outcome {
    Outcome { state: s, commands: Seq::empty(), events: Seq::empty() }
}

/// Confinement is kept alive on tolerance for one more tick. A locked
/// session spends one tick of grace: when none is left it unlocks and
/// releases, reporting `released`; otherwise it asserts its region again. An
/// unlocked session stays as it is.
pub open spec fn decay(s: SessionState, released: Event) -> Outcome {
    match s.lock {
        LockState::Unlocked => stay(s),
        LockState::Locked { window, region, grace_ticks } => {
            if grace_ticks <= 1 {
                Outcome {
                    state: SessionState { lock: LockState::Unlocked, ..s },
                    commands: seq![Command::Release],
                    events: seq![released],
                }
            } else {
                Outcome {
                    state: SessionState {
                        lock: LockState::Locked {
                            window,
                            region,
                            grace_ticks: (grace_ticks - 1) as u32,
                        },
                        ..s
                    },
                    commands: seq![Command::Apply(region)],
                    events: Seq::empty(),
                }
            }
        },
    }
}

/// The window switcher has the foreground. On the first such tick the
/// locked window is remembered and confinement is released, whatever the
/// lock; while the switcher stays, nothing happens.
pub open spec fn switcher_foreground(s: SessionState) -> Outcome {
    if s.switcher_active {
        stay(s)
    } else {
        Outcome {
            state: SessionState {
                switcher_active: true,
                remembered_window: s.locked_window(),
                ..s
            },
            commands: seq![Command::Release],
            events: seq![Event::SwitcherStarted],
        }
    }
}

/// A switch gesture ends on `foreground` although another window was
/// remembered.
pub open spec fn ends_on_other_window(s: SessionState, foreground: WindowHandle) -> bool {
    &&& s.switcher_active
    &&& s.remembered_window matches Some(remembered)
    &&& remembered != foreground
}

/// The switch gesture ended away from the remembered window: the session is
/// suspended and unlocked, and the tick ends there.
pub open spec fn suspend(s: SessionState) -> Outcome {
    Outcome {
        state: SessionState {
            lock: LockState::Unlocked,
            switcher_active: false,
            remembered_window: None,
            suspended: true,
        },
        commands: Seq::empty(),
        events: seq![Event::SwitcherEndedDifferentWindow],
    }
}

/// The end of a switch gesture that does not suspend the session: back on
/// the remembered window the suspension is lifted, with nothing remembered
/// it is left as it was. Outside a gesture nothing changes. No command is
/// emitted either way.
pub open spec fn resume(s: SessionState) -> Outcome {
    if !s.switcher_active {
        stay(s)
    } else if s.remembered_window is Some {
        Outcome {
            state: SessionState {
                switcher_active: false,
                remembered_window: None,
                suspended: false,
                ..s
            },
            commands: Seq::empty(),
            events: seq![Event::SwitcherEndedSameWindow],
        }
    } else {
        Outcome {
            state: SessionState { switcher_active: false, remembered_window: None, ..s },
            commands: Seq::empty(),
            events: seq![Event::SwitcherEndedNoMemory],
        }
    }
}

/// Normal evaluation of a foreground window that is not the switcher.
///
/// With a verdict the session locks onto the verdict's window and region
/// with full grace and applies the region, lifting a suspension first. The
/// log hears of the lifted suspension, and of the lock unless window and
/// region are the ones already enforced. Without a verdict a suspended
/// session stays as it is and any other decays.
pub open spec fn evaluate(
    s: SessionState,
    verdict: Option<(WindowHandle, DisplayRectangle)>,
) -> Outcome {
    match verdict {
        Some((window, region)) => Outcome {
            state: SessionState {
                lock: LockState::Locked { window, region, grace_ticks: GRACE_MAX },
                suspended: false,
                ..s
            },
            commands: seq![Command::Apply(region)],
            events: (if s.suspended {
                seq![Event::ReengagedAfterSuspension]
            } else {
                Seq::empty()
            }) + (if s.enforces(window, region) {
                Seq::empty()
            } else {
                seq![Event::Locked(region)]
            }),
        },
        None => if s.suspended {
            stay(s)
        } else {
            decay(s, Event::ReleasedExitedFullscreen)
        },
    }
}

/// One tick of the machine, by priority: no foreground window; the
/// switcher in the foreground; the end of a switch gesture; normal
/// evaluation.
pub open spec fn transition(s: SessionState, input: TickInput) -> Outcome {
    match input.foreground {
        None => decay(s, Event::ReleasedNoForeground),
        Some(foreground) => {
            if input.is_switcher {
                switcher_foreground(s)
            } else if ends_on_other_window(s, foreground) {
                suspend(s)
            } else {
                let resumed = resume(s);
                let evaluated = evaluate(resumed.state, input.fullscreen_region);
                Outcome {
                    state: evaluated.state,
                    commands: evaluated.commands,
                    events: resumed.events + evaluated.events,
                }
            }
        },
    }
}

} // verus!
