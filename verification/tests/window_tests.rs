use muka_taskswitch::order::sort_windows_by_title;
use muka_taskswitch::window::{is_excluded_class_name, is_listed_window, windows_changed, WindowInfo};

fn info(hwnd: isize, process_id: u32, process: &str, title: &str, elevated: bool) -> WindowInfo {
    WindowInfo {
        hwnd,
        process_id,
        process_name: process.to_string(),
        window_title: title.to_string(),
        class_name: "Cls".to_string(),
        is_elevated: elevated,
    }
}

#[test]
fn id_is_pid_and_padded_hex_handle() {
    assert_eq!(info(255, 100, "p", "t", false).id(), "100_00000000000000ff");
    assert_eq!(info(0, 0, "p", "t", false).id(), "0_0000000000000000");
    assert_eq!(info(0x1234abcd, 4294967295, "p", "t", false).id(), "4294967295_000000001234abcd");
    assert_eq!(info(-1, 7, "p", "t", false).id(), format!("7_{:016x}", -1isize as usize));
}

#[test]
fn id_matches_std_formatting() {
    for (hwnd, pid) in [(1isize, 1u32), (65536, 42), (isize::MAX, 9), (isize::MIN, 123456)] {
        let w = info(hwnd, pid, "p", "t", false);
        assert_eq!(w.id(), format!("{}_{:016x}", pid, hwnd as usize));
    }
}

#[test]
fn display_title_falls_back_when_empty() {
    assert_eq!(info(1, 1, "p", "", false).display_title(), "无标题窗口");
    assert_eq!(info(1, 1, "p", "Editor", false).display_title(), "Editor");
}

#[test]
fn display_process_notes_unknown_processes() {
    assert_eq!(info(1, 1, "", "t", true).display_process(), "[需要管理员权限]");
    assert_eq!(info(1, 1, "", "t", false).display_process(), "[未知进程]");
    assert_eq!(info(1, 1, "code", "t", true).display_process(), "code");
}

#[test]
fn excluded_classes_ignore_ascii_case() {
    assert!(is_excluded_class_name("Progman"));
    assert!(is_excluded_class_name("progman"));
    assert!(is_excluded_class_name("SHELL_TRAYWND"));
    assert!(is_excluded_class_name("Windows.UI.Core.CoreWindow"));
    assert!(is_excluded_class_name("windows.ui.composition.desktopwindowcontentbridge"));
    assert!(!is_excluded_class_name("Notepad"));
    assert!(!is_excluded_class_name("Progman2"));
    assert!(!is_excluded_class_name(""));
}

#[test]
fn listed_windows() {
    assert!(is_listed_window(true, false, false, false, "Notepad", "notes", 10, 20));
    assert!(!is_listed_window(false, false, false, false, "Notepad", "notes", 10, 20));
    assert!(!is_listed_window(true, true, false, false, "Notepad", "notes", 10, 20));
    assert!(!is_listed_window(true, false, true, false, "Notepad", "notes", 10, 20));
    assert!(!is_listed_window(true, false, false, true, "Notepad", "notes", 10, 20));
    assert!(!is_listed_window(true, false, false, false, "WorkerW", "notes", 10, 20));
    assert!(!is_listed_window(true, false, false, false, "Notepad", "", 10, 20));
    assert!(!is_listed_window(true, false, false, false, "Notepad", "notes", 20, 20));
}

#[test]
fn window_lists_change_detection() {
    let a = vec![info(1, 1, "p", "t", false), info(2, 2, "q", "u", false)];
    let same = a.clone();
    assert!(!windows_changed(&a, &same));
    let mut retitled = a.clone();
    retitled[1].window_title = "other".to_string();
    assert!(windows_changed(&a, &retitled));
    assert!(windows_changed(&a, &a[..1]));
    assert!(!windows_changed(&[], &[]));
}

#[test]
fn clone_keeps_every_field() {
    let w = info(5, 6, "proc", "title", true);
    assert_eq!(w.clone(), w);
}

#[test]
fn sort_by_lowercased_title_is_stable() {
    let list = vec![
        info(1, 1, "p", "b", false),
        info(2, 1, "p", "A", false),
        info(3, 1, "p", "a", false),
        info(4, 1, "p", "C", false),
        info(5, 1, "p", "", false),
    ];
    let sorted = sort_windows_by_title(list);
    let hwnds: Vec<isize> = sorted.iter().map(|w| w.hwnd).collect();
    assert_eq!(hwnds, vec![5, 2, 3, 1, 4]);
}

#[test]
fn sort_agrees_with_std_sort_by() {
    let titles = ["Zeta", "alpha", "Beta", "beta", "任务", "Ärger", "apple pie", "apple", "b", "ALPHA"];
    let list: Vec<WindowInfo> = titles
        .iter()
        .enumerate()
        .map(|(i, t)| info(i as isize, 1, "p", t, false))
        .collect();
    let mut expected = list.clone();
    expected.sort_by(|a, b| a.window_title.to_lowercase().cmp(&b.window_title.to_lowercase()));
    assert_eq!(sort_windows_by_title(list), expected);
}
