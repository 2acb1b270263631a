//! The switcher's settings that the logic reads: which window fields the
//! search looks at, and the colour theme.

use vstd::prelude::*;

verus! {

/// Which window fields the search text is looked for in.
#[derive(Clone, Copy, Debug, PartialEq, Eq, Structural)]
pub enum FilterType {
    /// The process name or the window title.
    All,
    /// The process name only.
    ProcessName,
    /// The window title only.
    WindowTitle,
}

impl Default for FilterType {
    fn default() -> (r: Self)
        ensures
            r == FilterType::All,
    {
        FilterType::All
    }
}

impl FilterType {
    /// The label shown for this filter.
    pub open spec fn label_spec(self) -> Seq<char> {
        match self {
            FilterType::All => "全部"@,
            FilterType::ProcessName => "进程名"@,
            FilterType::WindowTitle => "窗口标题"@,
        }
    }

    /// The label shown for this filter.
    pub fn label(&self) -> (r: &'static str)
        ensures
            r@ == self.label_spec(),
    {
        match self {
            FilterType::All => "全部",
            FilterType::ProcessName => "进程名",
            FilterType::WindowTitle => "窗口标题",
        }
    }
}

/// The colour theme of the switcher.
#[derive(Clone, Copy, Debug, PartialEq, Eq, Structural)]
pub enum Theme {
    /// Dark or light, as the system is.
    System,
    /// Always dark.
    Dark,
    /// Always light.
    Light,
}

impl Default for Theme {
    fn default() -> (r: Self)
        ensures
            r == Theme::System,
    {
        Theme::System
    }
}

impl Theme {
    /// The label shown for this theme.
    pub open spec fn label_spec(self) -> Seq<char> {
        match self {
            Theme::System => "跟随系统"@,
            Theme::Dark => "深色"@,
            Theme::Light => "浅色"@,
        }
    }

    /// The label shown for this theme.
    pub fn label(&self) -> (r: &'static str)
        ensures
            r@ == self.label_spec(),
    {
        match self {
            Theme::System => "跟随系统",
            Theme::Dark => "深色",
            Theme::Light => "浅色",
        }
    }

    /// Whether the theme is shown dark, given whether the system is dark.
    pub open spec fn is_dark_spec(self, system_dark: bool) -> bool {
        match self {
            Theme::Dark => true,
            Theme::Light => false,
            Theme::System => system_dark,
        }
    }

    /// Whether the theme is shown with dark visuals, given whether the system
    /// is dark: the dark theme always, the light theme never, the system
    /// theme as the system is.
    pub fn uses_dark_visuals(&self, system_dark: bool) -> (dark: bool)
        ensures
            dark == self.is_dark_spec(system_dark),
    {
        match self {
            Theme::Dark => true,
            Theme::Light => false,
            Theme::System => system_dark,
        }
    }
}

/// The dark theme is always shown dark and the light theme always light,
/// whatever the system is; only the system theme follows the system.
pub proof fn lemma_theme_visuals(system_dark: bool)
    ensures
        Theme::Dark.is_dark_spec(system_dark),
        !Theme::Light.is_dark_spec(system_dark),
        Theme::System.is_dark_spec(system_dark) == system_dark,
        Theme::System.is_dark_spec(true) != Theme::System.is_dark_spec(false),
{
}

} // verus!
