use smart_lock_cursor::geometry::Rectangle;
use smart_lock_cursor::machine::LockStateMachine;
use smart_lock_cursor::observation::{assemble, observe, WindowGeometry};
use smart_lock_cursor::session::{Command, LockState, TickInput, WindowHandle};

const W1: WindowHandle = WindowHandle(0x1001);
const D1: Rectangle = Rectangle { left: 0, top: 0, right: 1920, bottom: 1080 };

const NOTHING: TickInput = TickInput { foreground: None, is_switcher: false, fullscreen_region: None };

fn utf16(text: &str) -> Vec<u16> {
    text.encode_utf16().collect()
}

fn fullscreen_geometry() -> WindowGeometry {
    WindowGeometry { window: Rectangle { left: 2, top: -3, right: 1921, bottom: 1080 }, display: D1 }
}

fn windowed_geometry() -> WindowGeometry {
    WindowGeometry { window: Rectangle { left: 100, top: 100, right: 900, bottom: 700 }, display: D1 }
}

#[test]
fn fullscreen_window_yields_a_verdict_on_its_display() {
    assert_eq!(
        assemble(Some(W1), Some(false), Some(fullscreen_geometry())),
        TickInput { foreground: Some(W1), is_switcher: false, fullscreen_region: Some((W1, D1)) }
    );
}

#[test]
fn windowed_window_yields_no_verdict() {
    assert_eq!(
        assemble(Some(W1), Some(false), Some(windowed_geometry())),
        TickInput { foreground: Some(W1), is_switcher: false, fullscreen_region: None }
    );
}

#[test]
fn verdict_uses_the_default_tolerance() {
    let at_five = WindowGeometry {
        window: Rectangle { left: 5, top: 5, right: 1920, bottom: 1080 },
        display: D1,
    };
    let at_six = WindowGeometry {
        window: Rectangle { left: 6, top: 5, right: 1920, bottom: 1080 },
        display: D1,
    };
    assert_eq!(assemble(Some(W1), Some(false), Some(at_five)).fullscreen_region, Some((W1, D1)));
    assert_eq!(assemble(Some(W1), Some(false), Some(at_six)).fullscreen_region, None);
}

#[test]
fn switcher_is_reported_without_verdict() {
    let expected = TickInput { foreground: Some(W1), is_switcher: true, fullscreen_region: None };
    assert_eq!(assemble(Some(W1), Some(true), Some(fullscreen_geometry())), expected);
    assert_eq!(assemble(Some(W1), Some(true), None), expected);
}

#[test]
fn missing_answers_leave_nothing_observed() {
    assert_eq!(assemble(None, Some(false), Some(fullscreen_geometry())), NOTHING);
    assert_eq!(assemble(None, Some(true), None), NOTHING);
    assert_eq!(assemble(None, None, None), NOTHING);
    assert_eq!(assemble(Some(W1), None, Some(fullscreen_geometry())), NOTHING);
    assert_eq!(assemble(Some(W1), Some(false), None), NOTHING);
}

#[test]
fn observe_classifies_the_class_name() {
    let switcher = utf16("MultitaskingViewFrame");
    let game = utf16("UnrealWindow");
    assert_eq!(
        observe(Some(W1), Some(&switcher), Some(fullscreen_geometry())),
        TickInput { foreground: Some(W1), is_switcher: true, fullscreen_region: None }
    );
    assert_eq!(
        observe(Some(W1), Some(&game), Some(fullscreen_geometry())),
        TickInput { foreground: Some(W1), is_switcher: false, fullscreen_region: Some((W1, D1)) }
    );
    assert_eq!(
        observe(Some(W1), Some(&game), Some(windowed_geometry())),
        TickInput { foreground: Some(W1), is_switcher: false, fullscreen_region: None }
    );
}

#[test]
fn observe_without_answers_observes_nothing() {
    let game = utf16("UnrealWindow");
    assert_eq!(observe(None, Some(&game), Some(fullscreen_geometry())), NOTHING);
    assert_eq!(observe(Some(W1), None, Some(fullscreen_geometry())), NOTHING);
    assert_eq!(observe(Some(W1), Some(&game), None), NOTHING);
}

#[test]
fn failed_query_degrades_to_the_no_window_tick() {
    let mut machine = LockStateMachine::new();
    let game = utf16("UnrealWindow");
    let seen = observe(Some(W1), Some(&game), Some(fullscreen_geometry()));
    machine.tick(seen.foreground, seen.is_switcher, seen.fullscreen_region);
    assert_eq!(
        machine.state().lock,
        LockState::Locked { window: W1, region: D1, grace_ticks: 50 }
    );

    let failed = observe(Some(W1), Some(&game), None);
    let report = machine.tick(failed.foreground, failed.is_switcher, failed.fullscreen_region);
    assert_eq!(report.commands, vec![Command::Apply(D1)]);
    assert_eq!(
        machine.state().lock,
        LockState::Locked { window: W1, region: D1, grace_ticks: 49 }
    );

    let recovered = observe(Some(W1), Some(&game), Some(fullscreen_geometry()));
    let report =
        machine.tick(recovered.foreground, recovered.is_switcher, recovered.fullscreen_region);
    assert_eq!(report.commands, vec![Command::Apply(D1)]);
    assert_eq!(
        machine.state().lock,
        LockState::Locked { window: W1, region: D1, grace_ticks: 50 }
    );
}

#[test]
fn update_ticks_on_what_was_observed() {
    let game = utf16("UnrealWindow");
    let switcher = utf16("XamlExplorerHostIslandWindow");
    let mut machine = LockStateMachine::new();

    let report = machine.update(Some(W1), Some(&game), Some(fullscreen_geometry()));
    assert_eq!(report.commands, vec![Command::Apply(D1)]);
    assert_eq!(
        machine.state().lock,
        LockState::Locked { window: W1, region: D1, grace_ticks: 50 }
    );

    let report = machine.update(Some(W1), Some(&game), Some(windowed_geometry()));
    assert_eq!(report.commands, vec![Command::Apply(D1)]);
    assert_eq!(
        machine.state().lock,
        LockState::Locked { window: W1, region: D1, grace_ticks: 49 }
    );

    let report = machine.update(Some(WindowHandle(0x5005)), Some(&switcher), None);
    assert_eq!(report.commands, vec![Command::Release]);
    assert!(machine.state().switcher_active);
    assert_eq!(machine.state().remembered_window, Some(W1));

    let report = machine.update(None, None, None);
    assert_eq!(report.commands, vec![Command::Apply(D1)]);
    assert_eq!(
        machine.state().lock,
        LockState::Locked { window: W1, region: D1, grace_ticks: 48 }
    );
}
