use muka_taskswitch::config::{FilterType, Theme};

#[test]
fn filter_labels() {
    assert_eq!(FilterType::All.label(), "全部");
    assert_eq!(FilterType::ProcessName.label(), "进程名");
    assert_eq!(FilterType::WindowTitle.label(), "窗口标题");
    assert_eq!(FilterType::default(), FilterType::All);
}

#[test]
fn theme_labels() {
    assert_eq!(Theme::System.label(), "跟随系统");
    assert_eq!(Theme::Dark.label(), "深色");
    assert_eq!(Theme::Light.label(), "浅色");
    assert_eq!(Theme::default(), Theme::System);
}

#[test]
fn theme_darkness() {
    assert!(Theme::Dark.uses_dark_visuals(false));
    assert!(!Theme::Light.uses_dark_visuals(true));
    assert!(Theme::System.uses_dark_visuals(true));
    assert!(!Theme::System.uses_dark_visuals(false));
}
