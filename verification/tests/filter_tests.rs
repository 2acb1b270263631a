use muka_taskswitch::config::FilterType;
use muka_taskswitch::filter::filter_windows;
use muka_taskswitch::window::WindowInfo;

fn sample_windows() -> Vec<WindowInfo> {
    vec![
        WindowInfo {
            hwnd: 1,
            process_id: 100,
            process_name: "notepad.exe".to_string(),
            window_title: "rust-notes".to_string(),
            class_name: "Notepad".to_string(),
            is_elevated: false,
        },
        WindowInfo {
            hwnd: 2,
            process_id: 200,
            process_name: "rust-app.exe".to_string(),
            window_title: "Untitled".to_string(),
            class_name: "AppWindow".to_string(),
            is_elevated: false,
        },
        WindowInfo {
            hwnd: 3,
            process_id: 300,
            process_name: "Taskmgr.exe".to_string(),
            window_title: "任务管理器".to_string(),
            class_name: "TaskManagerWindow".to_string(),
            is_elevated: true,
        },
    ]
}

#[test]
fn test_filter_all() {
    let windows = sample_windows();
    let result = filter_windows(&windows, "rust", FilterType::All);
    assert_eq!(result.len(), 2);
    assert!(result.iter().any(|w| w.process_name == "notepad.exe"));
    assert!(result.iter().any(|w| w.process_name == "rust-app.exe"));
}

#[test]
fn test_filter_process_name() {
    let windows = sample_windows();
    let result = filter_windows(&windows, "rust-app", FilterType::ProcessName);
    assert_eq!(result.len(), 1);
    assert_eq!(result[0].process_name, "rust-app.exe");
}

#[test]
fn test_filter_window_title() {
    let windows = sample_windows();
    let result = filter_windows(&windows, "任务", FilterType::WindowTitle);
    assert_eq!(result.len(), 1);
    assert_eq!(result[0].window_title, "任务管理器");
}

#[test]
fn test_filter_empty_returns_all() {
    let windows = sample_windows();
    let result = filter_windows(&windows, "", FilterType::All);
    assert_eq!(result.len(), windows.len());
}

#[test]
fn filter_ignores_case_of_text_and_fields() {
    let windows = sample_windows();
    let result = filter_windows(&windows, "TASKMGR", FilterType::ProcessName);
    assert_eq!(result.len(), 1);
    assert_eq!(result[0].hwnd, 3);
    let result = filter_windows(&windows, "untitled", FilterType::WindowTitle);
    assert_eq!(result.len(), 1);
    assert_eq!(result[0].hwnd, 2);
}

#[test]
fn filter_keeps_list_order_and_values() {
    let windows = sample_windows();
    let result = filter_windows(&windows, "e", FilterType::All);
    let hwnds: Vec<isize> = result.iter().map(|w| w.hwnd).collect();
    assert_eq!(hwnds, vec![1, 2, 3]);
    assert_eq!(result, windows);
}

#[test]
fn filter_process_name_ignores_titles() {
    let windows = sample_windows();
    let result = filter_windows(&windows, "notes", FilterType::ProcessName);
    assert!(result.is_empty());
    let result = filter_windows(&windows, "notes", FilterType::All);
    assert_eq!(result.len(), 1);
}

#[test]
fn filter_with_no_match_is_empty() {
    let windows = sample_windows();
    assert!(filter_windows(&windows, "zzz", FilterType::All).is_empty());
    assert!(filter_windows(&[], "rust", FilterType::All).is_empty());
}

#[test]
fn filter_is_idempotent_on_values() {
    let windows = sample_windows();
    let once = filter_windows(&windows, "rust", FilterType::All);
    let twice = filter_windows(&once, "rust", FilterType::All);
    assert_eq!(once, twice);
}

#[test]
fn refined_search_equals_direct_search() {
    let windows = sample_windows();
    let wide = filter_windows(&windows, "rust", FilterType::All);
    let narrowed = filter_windows(&wide, "rust-a", FilterType::All);
    let direct = filter_windows(&windows, "rust-a", FilterType::All);
    assert_eq!(narrowed, direct);
    assert_eq!(direct.len(), 1);
}

#[test]
fn search_ignores_ascii_case() {
    let windows = vec![WindowInfo {
        hwnd: 9,
        process_id: 1,
        process_name: "editor.exe".to_string(),
        window_title: "Rust-Notes".to_string(),
        class_name: "Cls".to_string(),
        is_elevated: false,
    }];
    assert_eq!(filter_windows(&windows, "RUST", FilterType::WindowTitle).len(), 1);
    assert_eq!(filter_windows(&windows, "rust", FilterType::WindowTitle).len(), 1);
    assert_eq!(filter_windows(&windows, "rUsT-n", FilterType::All).len(), 1);
}
