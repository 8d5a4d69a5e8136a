use smart_lock_cursor::classifier::{is_switcher_class, is_task_switcher};

fn utf16(text: &str) -> Vec<u16> {
    text.encode_utf16().collect()
}

#[test]
fn switcher_class_names_are_recognised() {
    assert!(is_switcher_class("MultitaskingViewFrame"));
    assert!(is_switcher_class("TaskSwitcherWnd"));
    assert!(is_switcher_class("XamlExplorerHostIslandWindow"));
    assert!(is_switcher_class("ForegroundStaging"));
}

#[test]
fn pattern_may_stand_anywhere_in_the_name() {
    assert!(is_switcher_class("MultitaskingView"));
    assert!(is_switcher_class("Shell_MultitaskingView"));
    assert!(is_switcher_class("xxTaskSwitcherxx"));
    assert!(is_switcher_class("TaskTaskSwitcher"));
    assert!(is_switcher_class("MultitaskingVieMultitaskingView"));
}

#[test]
fn staging_window_must_match_whole_name() {
    assert!(!is_switcher_class("ForegroundStaging2"));
    assert!(!is_switcher_class("MyForegroundStaging"));
    assert!(!is_switcher_class("ForegroundStagin"));
}

#[test]
fn other_class_names_are_not_the_switcher() {
    assert!(!is_switcher_class(""));
    assert!(!is_switcher_class("Chrome_WidgetWin_1"));
    assert!(!is_switcher_class("Windows.UI.Core.CoreWindow"));
    assert!(!is_switcher_class("multitaskingview"));
    assert!(!is_switcher_class("TaskSwitche"));
    assert!(!is_switcher_class("Task Switcher"));
    assert!(!is_switcher_class("XamlExplorerHostIslandWindo"));
}

#[test]
fn names_outside_ascii_are_handled() {
    assert!(is_switcher_class("Fenêtre·TaskSwitcher·日本語"));
    assert!(!is_switcher_class("Fenêtre·日本語"));
    assert!(is_switcher_class("😀MultitaskingView"));
}

#[test]
fn task_switcher_is_recognised_from_utf16() {
    assert!(is_task_switcher(&utf16("MultitaskingViewFrame")));
    assert!(is_task_switcher(&utf16("TaskSwitcherWnd")));
    assert!(is_task_switcher(&utf16("XamlExplorerHostIslandWindow")));
    assert!(is_task_switcher(&utf16("ForegroundStaging")));
    assert!(!is_task_switcher(&utf16("Notepad")));
}

#[test]
fn empty_class_name_is_no_switcher() {
    assert!(!is_task_switcher(&[]));
}

#[test]
fn unpaired_surrogates_are_replaced_not_dropped() {
    // A lone surrogate inside the pattern becomes a replacement character,
    // which breaks the match; beside the pattern it does no harm.
    let mut broken = utf16("TaskSwi");
    broken.push(0xD800);
    broken.extend(utf16("tcher"));
    assert!(!is_task_switcher(&broken));

    let mut beside = vec![0xDC00u16];
    beside.extend(utf16("TaskSwitcher"));
    assert!(is_task_switcher(&beside));

    let mut staging = utf16("ForegroundStaging");
    staging.push(0xD800);
    assert!(!is_task_switcher(&staging));
}

#[test]
fn surrogate_pairs_decode_to_one_character() {
    let mut name = utf16("😀");
    assert_eq!(name.len(), 2);
    name.extend(utf16("TaskSwitcher"));
    assert!(is_task_switcher(&name));
}
