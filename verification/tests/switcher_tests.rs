use muka_taskswitch::config::FilterType;
use muka_taskswitch::switcher::{AppEvent, FrameKeys, Switcher, WindowCommand};
use muka_taskswitch::window::WindowInfo;

fn info(hwnd: isize, process: &str, title: &str) -> WindowInfo {
    WindowInfo {
        hwnd,
        process_id: hwnd as u32,
        process_name: process.to_string(),
        window_title: title.to_string(),
        class_name: "Cls".to_string(),
        is_elevated: false,
    }
}

fn three() -> Vec<WindowInfo> {
    vec![info(1, "code", "main.rs"), info(2, "firefox", "Docs"), info(3, "code", "lib.rs")]
}

fn no_keys() -> FrameKeys {
    FrameKeys { escape: false, enter: false, down: false, up: false }
}

#[test]
fn new_switcher_is_shown_and_unplaced() {
    let s = Switcher::new(FilterType::ProcessName);
    assert!(s.visible);
    assert!(!s.positioned);
    assert!(s.focus_search);
    assert_eq!(s.filter_type, FilterType::ProcessName);
    assert!(s.uses_transparent_background());
}

#[test]
fn refresh_event_filters_and_redraws() {
    let mut s = Switcher::new(FilterType::All);
    s.filter_text = "code".to_string();
    let cmds = s.on_app_event(AppEvent::RefreshWindows(three()), true);
    assert_eq!(cmds, vec![WindowCommand::Redraw]);
    assert_eq!(s.windows.len(), 3);
    assert_eq!(s.filtered_windows.len(), 2);
    let cmds = s.on_app_event(AppEvent::RefreshWindows(three()), false);
    assert!(cmds.is_empty());
}

#[test]
fn selection_wraps_both_ways() {
    let mut s = Switcher::new(FilterType::All);
    s.set_windows(three());
    assert_eq!(s.selected_index, 0);
    s.move_up();
    assert_eq!(s.selected_index, 2);
    s.move_down();
    assert_eq!(s.selected_index, 0);
    s.move_down();
    s.move_down();
    assert_eq!(s.selected_hwnd(), Some(3));
    s.move_down();
    assert_eq!(s.selected_index, 0);
}

#[test]
fn selection_resets_when_result_shrinks() {
    let mut s = Switcher::new(FilterType::All);
    s.set_windows(three());
    s.select(2);
    assert_eq!(s.selected_index, 2);
    s.filter_text = "firefox".to_string();
    s.apply_filter();
    assert_eq!(s.filtered_windows.len(), 1);
    assert_eq!(s.selected_index, 0);
    s.filter_text = "nothing".to_string();
    s.apply_filter();
    assert_eq!(s.selected_hwnd(), None);
    s.move_down();
    s.move_up();
    assert_eq!(s.selected_index, 0);
    s.select(5);
    assert_eq!(s.selected_index, 0);
}

#[test]
fn filter_type_change_searches_again() {
    let mut s = Switcher::new(FilterType::All);
    s.set_windows(three());
    s.filter_text = "docs".to_string();
    s.apply_filter();
    assert_eq!(s.filtered_windows.len(), 1);
    assert!(s.set_filter_type(FilterType::ProcessName));
    assert_eq!(s.filtered_windows.len(), 0);
    assert!(!s.set_filter_type(FilterType::ProcessName));
    s.clear_filter();
    assert_eq!(s.filter_text, "");
    assert_eq!(s.filtered_windows.len(), 3);
    assert!(s.take_focus_request());
    assert!(!s.take_focus_request());
}

#[test]
fn show_places_hidden_switcher_and_refocuses_shown_one() {
    let mut s = Switcher::new(FilterType::All);
    s.hide_window();
    assert!(!s.visible && !s.positioned);
    let cmds = s.on_app_event(AppEvent::ToggleVisibility, true);
    assert_eq!(cmds, vec![WindowCommand::Position]);
    assert!(s.visible && s.positioned);
    s.was_focused = true;
    s.ever_focused = true;
    s.focus_search = false;
    let cmds = s.on_app_event(AppEvent::ShowWindow, true);
    assert_eq!(cmds, vec![WindowCommand::Refocus]);
    assert!(s.visible && s.focus_search && !s.was_focused && !s.ever_focused);
    let cmds = s.on_app_event(AppEvent::ToggleVisibility, false);
    assert!(cmds.is_empty());
    assert_eq!(s.on_app_event(AppEvent::Exit, true), vec![WindowCommand::Exit]);
}

#[test]
fn first_frame_places_the_window() {
    let mut s = Switcher::new(FilterType::All);
    let cmds = s.begin_frame(false, true);
    assert_eq!(cmds, vec![WindowCommand::Position]);
    assert!(s.positioned);
    assert!(!s.uses_transparent_background());
    assert!(s.begin_frame(false, true).is_empty());
}

#[test]
fn losing_focus_after_having_it_hides() {
    let mut s = Switcher::new(FilterType::All);
    s.begin_frame(false, true);
    // never focused yet: losing nothing keeps it shown
    assert!(s.begin_frame(false, true).is_empty());
    assert!(s.visible);
    assert!(s.begin_frame(true, true).is_empty());
    assert!(s.ever_focused && s.was_focused);
    let cmds = s.begin_frame(false, true);
    assert_eq!(cmds, vec![WindowCommand::Hide]);
    assert!(!s.visible && !s.positioned);
}

#[test]
fn focus_is_not_tracked_when_hiding_is_off() {
    let mut s = Switcher::new(FilterType::All);
    s.begin_frame(true, false);
    assert!(!s.was_focused);
    assert!(s.begin_frame(false, false).is_empty());
    assert!(s.visible);
}

#[test]
fn focus_lost_event() {
    let mut s = Switcher::new(FilterType::All);
    assert!(!s.on_focus_lost(false));
    assert!(s.visible);
    assert!(s.on_focus_lost(true));
    assert!(!s.visible);
    assert!(!s.on_focus_lost(true));
}

#[test]
fn escape_hides_and_enter_activates() {
    let mut s = Switcher::new(FilterType::All);
    s.set_windows(three());
    let cmds = s.handle_keys(FrameKeys { escape: true, ..no_keys() }, true);
    assert_eq!(cmds, vec![WindowCommand::Hide]);
    assert!(!s.visible);

    let mut s = Switcher::new(FilterType::All);
    s.set_windows(three());
    // Enter with an empty search does nothing
    assert!(s.handle_keys(FrameKeys { enter: true, ..no_keys() }, true).is_empty());
    s.filter_text = "code".to_string();
    s.apply_filter();
    s.move_down();
    let cmds = s.handle_keys(FrameKeys { enter: true, ..no_keys() }, true);
    assert_eq!(cmds, vec![WindowCommand::Activate(3), WindowCommand::Hide]);
    let mut s2 = Switcher::new(FilterType::All);
    s2.set_windows(three());
    s2.filter_text = "code".to_string();
    s2.apply_filter();
    let cmds = s2.handle_keys(FrameKeys { enter: true, ..no_keys() }, false);
    assert_eq!(cmds, vec![WindowCommand::Activate(1)]);
    assert!(s2.visible);
}

#[test]
fn arrow_keys_move_selection() {
    let mut s = Switcher::new(FilterType::All);
    s.set_windows(three());
    s.handle_keys(FrameKeys { down: true, ..no_keys() }, true);
    assert_eq!(s.selected_index, 1);
    s.handle_keys(FrameKeys { up: true, ..no_keys() }, true);
    s.handle_keys(FrameKeys { up: true, ..no_keys() }, true);
    assert_eq!(s.selected_index, 2);
    s.handle_keys(FrameKeys { up: true, down: true, ..no_keys() }, true);
    assert_eq!(s.selected_index, 2);
}

#[test]
fn settings_toggle() {
    let mut s = Switcher::new(FilterType::All);
    s.toggle_settings();
    assert!(s.show_settings);
    s.toggle_settings();
    assert!(!s.show_settings);
}
