use crate::utils::text::same_text;
use vstd::prelude::*;
use vstd::string::*;

verus! {

/// Where the main window stands among the other windows of the desktop.
#[derive(Clone, Copy, Debug, PartialEq, Eq, Structural)]
pub enum WindowLevel {
    /// Like any other window.
    Normal,
    /// Above the other windows.
    AlwaysOnTop,
    /// Below the other windows, on the desktop.
    AlwaysOnBottom,
}

/// The level that a `window_level` setting stands for. A setting that is
/// neither `always_on_top` nor `always_on_bottom` stands for the normal
/// level.
pub open spec fn window_level_of(setting: Seq<char>) -> WindowLevel {
    if setting == "always_on_top"@ {
        WindowLevel::AlwaysOnTop
    } else if setting == "always_on_bottom"@ {
        WindowLevel::AlwaysOnBottom
    } else {
        WindowLevel::Normal
    }
}

impl WindowLevel {
    /// Reads a `window_level` setting.
    pub fn from_setting(setting: &str) -> (level: WindowLevel)
        ensures
            level == window_level_of(setting@),
    {
        if same_text(setting, "always_on_top") {
            WindowLevel::AlwaysOnTop
        } else if same_text(setting, "always_on_bottom") {
            WindowLevel::AlwaysOnBottom
        } else {
            WindowLevel::Normal
        }
    }

    /// Whether the window is to be kept above the others.
    pub fn keeps_on_top(&self) -> (on_top: bool)
        ensures
            on_top == (*self == WindowLevel::AlwaysOnTop),
    {
        match self {
            WindowLevel::AlwaysOnTop => true,
            _ => false,
        }
    }

    /// Whether the window is to be put below the others again each time it
    /// was shown or focused.
    pub fn sinks_to_bottom(&self) -> (to_bottom: bool)
        ensures
            to_bottom == (*self == WindowLevel::AlwaysOnBottom),
    {
        match self {
            WindowLevel::AlwaysOnBottom => true,
            _ => false,
        }
    }
}

/// The value of `auto_show` in a settings record that does not hold it.
pub fn default_auto_show() -> (value: bool)
    ensures
        value,
{
    true
}

/// The value of `minimize_to_tray` in a settings record that does not hold it.
pub fn default_minimize_to_tray() -> (value: bool)
    ensures
        value,
{
    true
}

/// The value of `auto_start` in a settings record that does not hold it.
pub fn default_auto_start() -> (value: bool)
    ensures
        !value,
{
    false
}

/// The value of `silent_start` in a settings record that does not hold it.
pub fn default_silent_start() -> (value: bool)
    ensures
        !value,
{
    false
}

/// The value of `theme` in a settings record that does not hold it.
pub fn default_theme() -> (value: String)
    ensures
        value@ == "light"@,
{
    String::from_str("light")
}

/// The value of `priority_color` in a settings record that does not hold it.
pub fn default_priority_color() -> (value: String)
    ensures
        value@ == "#FF9800"@,
{
    String::from_str("#FF9800")
}

/// The value of `window_level` in a settings record that does not hold it.
pub fn default_window_level() -> (value: String)
    ensures
        value@ == "always_on_bottom"@,
{
    String::from_str("always_on_bottom")
}

/// The value of `timeline_deadline_priority` in a settings record that does
/// not hold it.
pub fn default_timeline_deadline_priority() -> (value: bool)
    ensures
        value,
{
    true
}

/// The value of `enable_deadline_notification` in a settings record that does
/// not hold it.
pub fn default_enable_deadline_notification() -> (value: bool)
    ensures
        !value,
{
    false
}

/// The value of `notification_minutes_before` in a settings record that does
/// not hold it.
pub fn default_notification_minutes_before() -> (value: u32)
    ensures
        value == 30,
{
    30
}

} // verus!
