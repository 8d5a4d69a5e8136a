//! The attached displays, as they are listed at start-up.

use crate::geometry::DisplayRectangle;
use vstd::prelude::*;

verus! {

/// One line of the list of displays: the display's number, counted from
/// one in the order of enumeration, its extent and its origin.
#[derive(Clone, Copy, Debug, PartialEq, Eq)]
pub struct DisplaySummary {
    pub number: usize,
    pub width: i64,
    pub height: i64,
    pub left: i32,
    pub top: i32,
}

/// The summary of the display at `index` of the enumeration.
pub open spec fn summary_of(index: int, display: DisplayRectangle) -> DisplaySummary {
    DisplaySummary {
        number: (index + 1) as usize,
        width: display@.width() as i64,
        height: display@.height() as i64,
        left: display.left,
        top: display.top,
    }
}

/// Summarises the displays in the order in which they were enumerated.
pub fn summarize_displays(displays: &Vec<DisplayRectangle>) -> (summaries: Vec<DisplaySummary>)
    ensures
        summaries@.len() == displays@.len(),
        forall|i: int|
            0 <= i < displays@.len() ==> #[trigger] summaries@[i] == summary_of(i, displays@[i]),
{
    let mut summaries: Vec<DisplaySummary> = Vec::new();
    let mut i: usize = 0;
    while i < displays.len()
        invariant
            i <= displays@.len(),
            summaries@.len() == i,
            forall|j: int| 0 <= j < i ==> #[trigger] summaries@[j] == summary_of(j, displays@[j]),
        decreases displays@.len() - i,
    {
        let display = displays[i];
        summaries.push(
            DisplaySummary {
                number: i + 1,
                width: display.width(),
                height: display.height(),
                left: display.left,
                top: display.top,
            },
        );
        i += 1;
    }
    summaries
}

} // verus!
