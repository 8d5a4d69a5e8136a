//! The executable lock state machine.

use crate::geometry::{rects_equal, DisplayRectangle};
use crate::observation::{assembled, classification, observe, WindowGeometry};
use crate::session::{
    decay, evaluate, resume, switcher_foreground, transition, Command, Event, LockState,
    SessionState, TickInput, WindowHandle, GRACE_MAX,
};
use vstd::prelude::*;

verus! {

/// What a tick asks of the outside world: the commands for the cursor
/// clipper and the events for the log, each in the order of emission.
#[derive(Debug)]
pub struct TickReport {
    pub commands: Vec<Command>,
    pub events: Vec<Event>,
}

/// Owner of the session state. The state is created unlocked and changes
/// only through [`LockStateMachine::tick`], so it is well formed at all
/// times.
#[derive(Debug)]
pub struct LockStateMachine {
    state: SessionState,
}

impl View for LockStateMachine {
    type V = SessionState;

    closed spec fn view(&self) -> SessionState {
        self.state
    }
}

/// Keeps confinement alive on tolerance for one more tick.
fn spend_grace(
    s: SessionState,
    released: Event,
    events: &mut Vec<Event>,
) -> (next: (SessionState, Vec<Command>))
    ensures
        next.0 == decay(s, released).state,
        next.1@ == decay(s, released).commands,
        final(events)@ == old(events)@ + decay(s, released).events,
{
    match s.lock {
        LockState::Unlocked => (s, Vec::new()),
        LockState::Locked { window, region, grace_ticks } => {
            if grace_ticks <= 1 {
                events.push(released);
                (SessionState { lock: LockState::Unlocked, ..s }, vec![Command::Release])
            } else {
                let lock = LockState::Locked { window, region, grace_ticks: grace_ticks - 1 };
                (SessionState { lock, ..s }, vec![Command::Apply(region)])
            }
        },
    }
}

/// Handles a tick on which the switcher has the foreground.
fn enter_switcher(
    s: SessionState,
    events: &mut Vec<Event>,
) -> (next: (SessionState, Vec<Command>))
    ensures
        next.0 == switcher_foreground(s).state,
        next.1@ == switcher_foreground(s).commands,
        final(events)@ == old(events)@ + switcher_foreground(s).events,
{
    if s.switcher_active {
        (s, Vec::new())
    } else {
        let remembered_window = match s.lock {
            LockState::Locked { window, .. } => Some(window),
            LockState::Unlocked => None,
        };
        events.push(Event::SwitcherStarted);
        (SessionState { switcher_active: true, remembered_window, ..s }, vec![Command::Release])
    }
}

/// Ends a switch gesture that does not suspend the session.
fn leave_switcher(s: SessionState, events: &mut Vec<Event>) -> (next: SessionState)
    ensures
        next == resume(s).state,
        final(events)@ == old(events)@ + resume(s).events,
{
    if !s.switcher_active {
        s
    } else if s.remembered_window.is_some() {
        events.push(Event::SwitcherEndedSameWindow);
        SessionState { switcher_active: false, remembered_window: None, suspended: false, ..s }
    } else {
        events.push(Event::SwitcherEndedNoMemory);
        SessionState { switcher_active: false, remembered_window: None, ..s }
    }
}

/// Whether the session is locked onto exactly this window and region.
fn enforces(s: &SessionState, window: WindowHandle, region: &DisplayRectangle) -> (same: bool)
    ensures
        same == s.enforces(window, *region),
{
    match s.lock {
        LockState::Locked { window: locked, region: enforced, .. } => locked == window
            && rects_equal(&enforced, region),
        LockState::Unlocked => false,
    }
}

/// Evaluates a foreground window that is not the switcher.
fn judge(
    s: SessionState,
    verdict: Option<(WindowHandle, DisplayRectangle)>,
    events: &mut Vec<Event>,
) -> (next: (SessionState, Vec<Command>))
    ensures
        next.0 == evaluate(s, verdict).state,
        next.1@ == evaluate(s, verdict).commands,
        final(events)@ == old(events)@ + evaluate(s, verdict).events,
{
    match verdict {
        Some((window, region)) => {
            if s.suspended {
                events.push(Event::ReengagedAfterSuspension);
            }
            if !enforces(&s, window, &region) {
                events.push(Event::Locked(region));
            }
            let lock = LockState::Locked { window, region, grace_ticks: GRACE_MAX };
            (SessionState { lock, suspended: false, ..s }, vec![Command::Apply(region)])
        },
        None => {
            if s.suspended {
                (s, Vec::new())
            } else {
                spend_grace(s, Event::ReleasedExitedFullscreen, events)
            }
        },
    }
}

impl LockStateMachine {
    #[verifier::type_invariant]
    spec fn state_is_well_formed(self) -> bool {
        self.state.well_formed()
    }

    /// A machine in the initial state.
    pub fn new() -> (machine: LockStateMachine)
        ensures
            machine@ == SessionState::initial(),
    {
        LockStateMachine {
            state: SessionState {
                lock: LockState::Unlocked,
                switcher_active: false,
                remembered_window: None,
                suspended: false,
            },
        }
    }

    /// The current session state.
    pub fn state(&self) -> (s: SessionState)
        ensures
            s == self@,
            s.well_formed(),
    {
        proof {
            use_type_invariant(self);
        }
        self.state
    }

    /// Advances the machine by one tick.
    ///
    /// `foreground` is the window that has the focus, `is_switcher` says
    /// whether that window is the window switcher, and `fullscreen_region`
    /// is the fullscreen verdict. The machine moves as [`transition`] says
    /// and reports the commands and events of that transition.
    pub fn tick(
        &mut self,
        foreground: Option<WindowHandle>,
        is_switcher: bool,
        fullscreen_region: Option<(WindowHandle, DisplayRectangle)>,
    ) -> (report: TickReport)
        ensures
            final(self)@.well_formed(),
            final(self)@ == transition(
                old(self)@,
                TickInput { foreground, is_switcher, fullscreen_region },
            ).state,
            report.commands@ == transition(
                old(self)@,
                TickInput { foreground, is_switcher, fullscreen_region },
            ).commands,
            report.events@ == transition(
                old(self)@,
                TickInput { foreground, is_switcher, fullscreen_region },
            ).events,
    {
        proof {
            use_type_invariant(&*self);
        }
        let s = self.state;
        let mut events: Vec<Event> = Vec::new();
        let (next, commands) = match foreground {
            None => spend_grace(s, Event::ReleasedNoForeground, &mut events),
            Some(window) => {
                if is_switcher {
                    enter_switcher(s, &mut events)
                } else if s.switcher_active && s.remembered_window.is_some()
                    && s.remembered_window.unwrap() != window {
                    events.push(Event::SwitcherEndedDifferentWindow);
                    let suspended = SessionState {
                        lock: LockState::Unlocked,
                        switcher_active: false,
                        remembered_window: None,
                        suspended: true,
                    };
                    (suspended, Vec::new())
                } else {
                    let resumed = leave_switcher(s, &mut events);
                    judge(resumed, fullscreen_region, &mut events)
                }
            },
        };
        self.state = next;
        TickReport { commands, events }
    }

    /// Advances the machine by one tick on what the window system answered:
    /// the foreground window, its class name as UTF-16 code units and its
    /// geometry, the latter two absent when there was no answer. The answers
    /// are assembled as [`assembled`] says and the machine ticks on the
    /// result.
    pub fn update(
        &mut self,
        foreground: Option<WindowHandle>,
        class_name: Option<&[u16]>,
        geometry: Option<WindowGeometry>,
    ) -> (report: TickReport)
        ensures
            final(self)@.well_formed(),
            final(self)@ == transition(
                old(self)@,
                assembled(foreground, classification(class_name), geometry),
            ).state,
            report.commands@ == transition(
                old(self)@,
                assembled(foreground, classification(class_name), geometry),
            ).commands,
            report.events@ == transition(
                old(self)@,
                assembled(foreground, classification(class_name), geometry),
            ).events,
    {
        let input = observe(foreground, class_name, geometry);
        self.tick(input.foreground, input.is_switcher, input.fullscreen_region)
    }
}

} // verus!
