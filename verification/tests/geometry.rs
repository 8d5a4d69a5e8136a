use smart_lock_cursor::displays::{summarize_displays, DisplaySummary};
use smart_lock_cursor::geometry::{
    check_fullscreen, is_fullscreen, rects_equal, Rectangle, DEFAULT_TOLERANCE,
};

fn rect(left: i32, top: i32, right: i32, bottom: i32) -> Rectangle {
    Rectangle { left, top, right, bottom }
}

#[test]
fn exact_match_is_fullscreen_at_zero_tolerance() {
    let display = rect(0, 0, 1920, 1080);
    assert!(is_fullscreen(display, display, 0));
    assert!(is_fullscreen(display, display, DEFAULT_TOLERANCE));
}

#[test]
fn exact_match_on_a_display_away_from_the_origin() {
    let display = rect(-2560, -360, 0, 1080);
    assert!(is_fullscreen(display, display, 0));
}

#[test]
fn default_tolerance_is_five() {
    assert_eq!(DEFAULT_TOLERANCE, 5);
}

#[test]
fn window_within_tolerance_matches() {
    let display = rect(0, 0, 1920, 1080);
    assert!(is_fullscreen(rect(5, 5, 1920, 1080), display, 5));
    assert!(is_fullscreen(rect(-5, -5, 1920, 1080), display, 5));
    assert!(is_fullscreen(rect(3, 2, 1921, 1078), display, 5));
}

#[test]
fn window_beyond_tolerance_does_not_match() {
    let display = rect(0, 0, 1920, 1080);
    assert!(!is_fullscreen(rect(6, 0, 1920, 1080), display, 5));
    assert!(!is_fullscreen(rect(0, 6, 1920, 1080), display, 5));
    assert!(!is_fullscreen(rect(0, 0, 1914, 1080), display, 5));
    assert!(!is_fullscreen(rect(0, 0, 1920, 1074), display, 5));
    assert!(!is_fullscreen(rect(100, 100, 900, 700), display, 5));
}

#[test]
fn window_that_overdraws_the_display_is_covering() {
    let display = rect(0, 0, 1920, 1080);
    // Far outside the size match, but every edge lies beyond the display's.
    assert!(is_fullscreen(rect(-8, -8, 1928, 1088), display, 5));
    assert!(is_fullscreen(rect(-100, -100, 3000, 2000), display, 0));
}

#[test]
fn covering_needs_every_edge() {
    let display = rect(0, 0, 1920, 1080);
    assert!(!is_fullscreen(rect(-100, -100, 1900, 2000), display, 5));
    assert!(!is_fullscreen(rect(-100, -100, 3000, 1000), display, 5));
    assert!(!is_fullscreen(rect(50, -100, 3000, 2000), display, 5));
    assert!(!is_fullscreen(rect(-100, 50, 3000, 2000), display, 5));
}

#[test]
fn zero_tolerance_is_strict() {
    let display = rect(0, 0, 1920, 1080);
    assert!(!is_fullscreen(rect(1, 0, 1920, 1080), display, 0));
    assert!(!is_fullscreen(rect(0, 0, 1919, 1080), display, 0));
    assert!(is_fullscreen(rect(1, 0, 1920, 1080), display, 1));
}

#[test]
fn verdict_is_unchanged_by_translation() {
    let display = rect(0, 0, 1920, 1080);
    let windows = [
        rect(0, 0, 1920, 1080),
        rect(4, -3, 1918, 1083),
        rect(6, 0, 1920, 1080),
        rect(-8, -8, 1928, 1088),
        rect(100, 100, 900, 700),
        rect(0, 0, 1914, 1080),
    ];
    let offsets = [(0, 0), (1920, 0), (-1920, -1080), (37, -5000), (-100_000, 250_000)];
    for window in windows {
        for tolerance in [0u32, 1, 5, 8] {
            let verdict = is_fullscreen(window, display, tolerance);
            for (dx, dy) in offsets {
                let moved_window =
                    rect(window.left + dx, window.top + dy, window.right + dx, window.bottom + dy);
                let moved_display = rect(
                    display.left + dx,
                    display.top + dy,
                    display.right + dx,
                    display.bottom + dy,
                );
                assert_eq!(is_fullscreen(moved_window, moved_display, tolerance), verdict);
            }
        }
    }
}

#[test]
fn wider_tolerance_keeps_the_verdict() {
    let display = rect(0, 0, 1920, 1080);
    let window = rect(3, 3, 1920, 1080);
    assert!(!is_fullscreen(window, display, 2));
    assert!(is_fullscreen(window, display, 3));
    assert!(is_fullscreen(window, display, 4));
    assert!(is_fullscreen(window, display, u32::MAX));
}

#[test]
fn extreme_edges_do_not_overflow() {
    let everything = rect(i32::MIN, i32::MIN, i32::MAX, i32::MAX);
    let display = rect(0, 0, 1920, 1080);
    assert!(is_fullscreen(everything, display, 0));
    assert!(!is_fullscreen(display, everything, 5));
    assert!(is_fullscreen(display, everything, u32::MAX));
    assert!(is_fullscreen(everything, everything, 0));
    let inverted = rect(i32::MAX, i32::MAX, i32::MIN, i32::MIN);
    assert!(!is_fullscreen(inverted, display, 5));
    assert_eq!(everything.width(), 4_294_967_295);
    assert_eq!(inverted.height(), -4_294_967_295);
}

#[test]
fn width_and_height_are_edge_differences() {
    let r = rect(-1920, 100, 0, 1180);
    assert_eq!(r.width(), 1920);
    assert_eq!(r.height(), 1080);
}

#[test]
fn check_fullscreen_returns_the_display() {
    let display = rect(1920, 0, 3840, 1080);
    assert_eq!(check_fullscreen(rect(1920, 0, 3840, 1080), display), Some(display));
    assert_eq!(check_fullscreen(rect(1925, 5, 3842, 1083), display), Some(display));
    assert_eq!(check_fullscreen(rect(1925, 5, 3835, 1075), display), None);
    assert_eq!(check_fullscreen(rect(1926, 0, 3840, 1080), display), None);
    assert_eq!(check_fullscreen(rect(2000, 100, 2800, 700), display), None);
}

#[test]
fn rects_equal_compares_all_four_edges() {
    let a = rect(1, 2, 3, 4);
    assert!(rects_equal(&a, &rect(1, 2, 3, 4)));
    assert!(!rects_equal(&a, &rect(0, 2, 3, 4)));
    assert!(!rects_equal(&a, &rect(1, 0, 3, 4)));
    assert!(!rects_equal(&a, &rect(1, 2, 0, 4)));
    assert!(!rects_equal(&a, &rect(1, 2, 3, 0)));
}

#[test]
fn displays_are_numbered_from_one_in_order() {
    let displays = vec![rect(0, 0, 1920, 1080), rect(-2560, -180, 0, 1260)];
    let summaries = summarize_displays(&displays);
    assert_eq!(
        summaries,
        vec![
            DisplaySummary { number: 1, width: 1920, height: 1080, left: 0, top: 0 },
            DisplaySummary { number: 2, width: 2560, height: 1440, left: -2560, top: -180 },
        ]
    );
}

#[test]
fn no_displays_no_summaries() {
    assert_eq!(summarize_displays(&Vec::new()), Vec::new());
}
