//! From the answers of the window system to the input of a tick.

use crate::classifier::{is_task_switcher, is_task_switcher_name};
use crate::geometry::{check_fullscreen, fullscreen, DisplayRectangle, Rectangle, DEFAULT_TOLERANCE};
use crate::session::{TickInput, WindowHandle};
use vstd::prelude::*;

verus! {

/// Where a window is: its bounding rectangle and the bounding rectangle of
/// the display nearest to it.
#[derive(Clone, Copy, Debug, PartialEq, Eq)]
pub struct WindowGeometry {
    pub window: Rectangle,
    pub display: DisplayRectangle,
}

impl TickInput {
    /// The input of a tick on which nothing could be observed: no window
    /// and no verdict.
    pub open spec fn nothing() -> TickInput {
        TickInput { foreground: None, is_switcher: false, fullscreen_region: None }
    }
}

/// The fullscreen verdict on `window` at the default tolerance.
pub open spec fn verdict_of(
    window: WindowHandle,
    geometry: WindowGeometry,
) -> Option<(WindowHandle, DisplayRectangle)> {
    if fullscreen(geometry.window@, geometry.display@, DEFAULT_TOLERANCE as int) {
        Some((window, geometry.display))
    } else {
        None
    }
}

/// The tick input that the answers of the window system amount to.
///
/// `is_switcher` is the classification of the foreground window and
/// `geometry` its position, each absent when the query gave no result. The
/// geometry of the switcher is not looked at, so the switcher comes without
/// a verdict. A query that was needed and gave no result leaves a tick that
/// observed nothing.
pub open spec fn assembled(
    foreground: Option<WindowHandle>,
    is_switcher: Option<bool>,
    geometry: Option<WindowGeometry>,
) -> TickInput {
    match (foreground, is_switcher) {
        (Some(window), Some(true)) => TickInput {
            foreground: Some(window),
            is_switcher: true,
            fullscreen_region: None,
        },
        (Some(window), Some(false)) => match geometry {
            Some(g) => TickInput {
                foreground: Some(window),
                is_switcher: false,
                fullscreen_region: verdict_of(window, g),
            },
            None => TickInput::nothing(),
        },
        _ => TickInput::nothing(),
    }
}

/// Assembles the input of a tick from the answers of the window system, as
/// [`assembled`] says.
pub fn assemble(
    foreground: Option<WindowHandle>,
    is_switcher: Option<bool>,
    geometry: Option<WindowGeometry>,
) -> (input: TickInput)
    ensures
        input == assembled(foreground, is_switcher, geometry),
{
    let nothing = TickInput { foreground: None, is_switcher: false, fullscreen_region: None };
    let window = match foreground {
        Some(window) => window,
        None => { return nothing; },
    };
    match is_switcher {
        None => nothing,
        Some(true) => TickInput {
            foreground: Some(window),
            is_switcher: true,
            fullscreen_region: None,
        },
        Some(false) => match geometry {
            None => nothing,
            Some(g) => {
                let fullscreen_region = match check_fullscreen(g.window, g.display) {
                    Some(display) => Some((window, display)),
                    None => None,
                };
                TickInput { foreground: Some(window), is_switcher: false, fullscreen_region }
            },
        },
    }
}

/// The classification of the foreground window from its class name, absent
/// when the class name is.
pub open spec fn classification(class_name: Option<&[u16]>) -> Option<bool> {
    match class_name {
        Some(units) => Some(is_task_switcher_name(units@)),
        None => None,
    }
}

/// Assembles the input of a tick from the foreground window, its class name
/// as UTF-16 code units and its geometry, the latter two absent when the
/// window system gave no answer. The class name is decoded and classified,
/// the rest is [`assemble`].
pub fn observe(
    foreground: Option<WindowHandle>,
    class_name: Option<&[u16]>,
    geometry: Option<WindowGeometry>,
) -> (input: TickInput)
    ensures
        input == assembled(foreground, classification(class_name), geometry),
{
    let is_switcher = match class_name {
        Some(units) => Some(is_task_switcher(units)),
        None => None,
    };
    assemble(foreground, is_switcher, geometry)
}

} // verus!
