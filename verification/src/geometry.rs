//! Rectangles and the fullscreen test.

use vstd::prelude::*;

verus! {

/// Tolerance, in the units of the geometry source, used when none is given.
pub const DEFAULT_TOLERANCE: u32 = 5;

/// A rectangle given by its four edges. Its width is `right - left` and its
/// height `bottom - top`; geometry that comes from the window system has
/// neither of them negative.
#[derive(Clone, Copy, Debug, PartialEq, Eq, Structural)]
pub struct Rectangle {
    pub left: i32,
    pub top: i32,
    pub right: i32,
    pub bottom: i32,
}

/// The bounding rectangle of one physical display. Displays need not start at
/// the origin.
pub type DisplayRectangle = Rectangle;

/// A rectangle over the mathematical integers.
pub struct RectangleModel {
    pub left: int,
    pub top: int,
    pub right: int,
    pub bottom: int,
}

impl RectangleModel {
    pub open spec fn width(self) -> int {
        self.right - self.left
    }

    pub open spec fn height(self) -> int {
        self.bottom - self.top
    }

    /// The rectangle moved by `dx` horizontally and `dy` vertically.
    pub open spec fn translate(self, dx: int, dy: int) -> RectangleModel {
        RectangleModel {
            left: self.left + dx,
            top: self.top + dy,
            right: self.right + dx,
            bottom: self.bottom + dy,
        }
    }
}

impl View for Rectangle {
    type V = RectangleModel;

    open spec fn view(&self) -> RectangleModel {
        RectangleModel {
            left: self.left as int,
            top: self.top as int,
            right: self.right as int,
            bottom: self.bottom as int,
        }
    }
}

/// Distance between two integers.
pub open spec fn distance(a: int, b: int) -> int {
    if a >= b {
        a - b
    } else {
        b - a
    }
}

/// The window has the display's size and position, each edge and each extent
/// within `tolerance`.
pub open spec fn size_position_match(
    window: RectangleModel,
    display: RectangleModel,
    tolerance: int,
) -> bool {
    &&& distance(window.width(), display.width()) <= tolerance
    &&& distance(window.height(), display.height()) <= tolerance
    &&& distance(window.left, display.left) <= tolerance
    &&& distance(window.top, display.top) <= tolerance
}

/// The window covers the display, up to `tolerance` on each edge and extent.
pub open spec fn covering_match(
    window: RectangleModel,
    display: RectangleModel,
    tolerance: int,
) -> bool {
    &&& window.left <= display.left + tolerance
    &&& window.top <= display.top + tolerance
    &&& window.right >= display.right - tolerance
    &&& window.bottom >= display.bottom - tolerance
    &&& window.width() >= display.width() - tolerance
    &&& window.height() >= display.height() - tolerance
}

/// A window is treated as fullscreen on a display when it matches the display
/// in size and position or covers it; either suffices.
pub open spec fn fullscreen(
    window: RectangleModel,
    display: RectangleModel,
    tolerance: int,
) -> bool {
    size_position_match(window, display, tolerance) || covering_match(window, display, tolerance)
}

impl Rectangle {
    /// `right - left`, never negative for valid geometry.
    pub fn width(&self) -> (w: i64)
        ensures
            w == self@.width(),
    {
        self.right as i64 - self.left as i64
    }

    /// `bottom - top`, never negative for valid geometry.
    pub fn height(&self) -> (h: i64)
        ensures
            h == self@.height(),
    {
        self.bottom as i64 - self.top as i64
    }
}

/// Whether two rectangles have the same four edges.
pub fn rects_equal(a: &Rectangle, b: &Rectangle) -> (same: bool)
    ensures
        same == (*a == *b),
{
    a.left == b.left && a.top == b.top && a.right == b.right && a.bottom == b.bottom
}

/// Whether `a` and `b` lie within `tolerance` of each other.
fn within(a: i64, b: i64, tolerance: i64) -> (near: bool)
    requires
        -0x1_0000_0000 <= a <= 0x1_0000_0000,
        -0x1_0000_0000 <= b <= 0x1_0000_0000,
    ensures
        near == (distance(a as int, b as int) <= tolerance),
{
    if a >= b {
        a - b <= tolerance
    } else {
        b - a <= tolerance
    }
}

/// Decides whether a window with bounds `window_rect` is fullscreen on the
/// display with bounds `display_rect`.
///
/// Total on all rectangles and tolerances: the arithmetic is carried out wide
/// enough that no combination of edges overflows.
pub fn is_fullscreen(
    window_rect: Rectangle,
    display_rect: DisplayRectangle,
    tolerance: u32,
) -> (verdict: bool)
    ensures
        verdict == fullscreen(window_rect@, display_rect@, tolerance as int),
{
    let tol: i64 = tolerance as i64;
    let window_width: i64 = window_rect.width();
    let window_height: i64 = window_rect.height();
    let display_width: i64 = display_rect.width();
    let display_height: i64 = display_rect.height();
    let window_left: i64 = window_rect.left as i64;
    let window_top: i64 = window_rect.top as i64;
    let display_left: i64 = display_rect.left as i64;
    let display_top: i64 = display_rect.top as i64;

    let size_and_position = within(window_width, display_width, tol)
        && within(window_height, display_height, tol)
        && within(window_left, display_left, tol)
        && within(window_top, display_top, tol);
    if size_and_position {
        return true;
    }
    window_left <= display_left + tol
        && window_top <= display_top + tol
        && window_rect.right as i64 >= display_rect.right as i64 - tol
        && window_rect.bottom as i64 >= display_rect.bottom as i64 - tol
        && window_width >= display_width - tol
        && window_height >= display_height - tol
}

/// The fullscreen verdict at the default tolerance: the display's rectangle
/// if the window is fullscreen on it, nothing otherwise.
pub fn check_fullscreen(
    window_rect: Rectangle,
    display_rect: DisplayRectangle,
) -> (verdict: Option<DisplayRectangle>)
    ensures
        verdict == if fullscreen(window_rect@, display_rect@, DEFAULT_TOLERANCE as int) {
            Some(display_rect)
        } else {
            None
        },
{
    if is_fullscreen(window_rect, display_rect, DEFAULT_TOLERANCE) {
        Some(display_rect)
    } else {
        None
    }
}

/// Moving the window and the display by the same offset does not change the
/// fullscreen verdict.
pub proof fn lemma_fullscreen_translation_invariant(
    window: RectangleModel,
    display: RectangleModel,
    tolerance: int,
    dx: int,
    dy: int,
)
    ensures
        fullscreen(window.translate(dx, dy), display.translate(dx, dy), tolerance)
            == fullscreen(window, display, tolerance),
{
}

/// A window whose rectangle equals the display's is fullscreen at every
/// tolerance, zero included.
pub proof fn lemma_exact_match_is_fullscreen(rect: RectangleModel, tolerance: int)
    requires
        tolerance >= 0,
    ensures
        fullscreen(rect, rect, tolerance),
{
}

/// At tolerance zero a window is fullscreen exactly when no edge of it lies
/// inside the display.
pub proof fn lemma_zero_tolerance_is_covering(window: RectangleModel, display: RectangleModel)
    ensures
        fullscreen(window, display, 0) <==> {
            &&& window.left <= display.left
            &&& window.top <= display.top
            &&& window.right >= display.right
            &&& window.bottom >= display.bottom
        },
{
}

/// Widening the tolerance never turns a fullscreen window into one that is
/// not.
pub proof fn lemma_fullscreen_monotone_in_tolerance(
    window: RectangleModel,
    display: RectangleModel,
    smaller: int,
    larger: int,
)
    requires
        smaller <= larger,
        fullscreen(window, display, smaller),
    ensures
        fullscreen(window, display, larger),
{
}

} // verus!
