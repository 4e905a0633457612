//! Decisions of the application shell: what a tray-menu entry does, when the
//! overlay position is remembered, when the detail panel closes.
use vstd::prelude::*;

use crate::taskbar::PlacementMode;
use crate::text::str_equals;

verus! {

/// The colour theme of the widget.
#[derive(Clone, Copy, Debug, PartialEq, Eq, Structural)]
pub enum ThemeChoice {
    Light,
    Dark,
}

/// What a tray-menu entry asks for.
#[derive(Clone, Copy, Debug, PartialEq, Eq, Structural)]
pub enum MenuAction {
    Show,
    SetPlacement(PlacementMode),
    SetTheme(ThemeChoice),
    ToggleAutostart,
    Refresh,
    Hide,
    Quit,
}

/// The action of the tray-menu entry with this id; none for other ids.
pub open spec fn menu_action_of(id: Seq<char>) -> Option<MenuAction> {
    if id == "show"@ {
        Some(MenuAction::Show)
    } else if id == "taskbar_mode"@ {
        Some(MenuAction::SetPlacement(PlacementMode::Taskbar))
    } else if id == "overlay_mode"@ {
        Some(MenuAction::SetPlacement(PlacementMode::Overlay))
    } else if id == "light_theme"@ {
        Some(MenuAction::SetTheme(ThemeChoice::Light))
    } else if id == "dark_theme"@ {
        Some(MenuAction::SetTheme(ThemeChoice::Dark))
    } else if id == "autostart"@ {
        Some(MenuAction::ToggleAutostart)
    } else if id == "refresh"@ {
        Some(MenuAction::Refresh)
    } else if id == "hide"@ {
        Some(MenuAction::Hide)
    } else if id == "quit"@ {
        Some(MenuAction::Quit)
    } else {
        None
    }
}

pub fn menu_action(id: &str) -> (action: Option<MenuAction>)
    ensures
        action == menu_action_of(id@),
{
    if str_equals(id, "show") {
        Some(MenuAction::Show)
    } else if str_equals(id, "taskbar_mode") {
        Some(MenuAction::SetPlacement(PlacementMode::Taskbar))
    } else if str_equals(id, "overlay_mode") {
        Some(MenuAction::SetPlacement(PlacementMode::Overlay))
    } else if str_equals(id, "light_theme") {
        Some(MenuAction::SetTheme(ThemeChoice::Light))
    } else if str_equals(id, "dark_theme") {
        Some(MenuAction::SetTheme(ThemeChoice::Dark))
    } else if str_equals(id, "autostart") {
        Some(MenuAction::ToggleAutostart)
    } else if str_equals(id, "refresh") {
        Some(MenuAction::Refresh)
    } else if str_equals(id, "hide") {
        Some(MenuAction::Hide)
    } else if str_equals(id, "quit") {
        Some(MenuAction::Quit)
    } else {
        None
    }
}

/// The placement mode asked for by name; any name but `taskbar` and
/// `overlay` is refused with the message shown to the user.
pub fn placement_request(name: &str) -> (r: Result<PlacementMode, &'static str>)
    ensures
        match r {
            Ok(mode) => crate::taskbar::placement_name(mode) == name@,
            Err(text) => name@ != "taskbar"@ && name@ != "overlay"@ && text@
                == "지원하지 않는 위젯 배치 모드입니다."@,
        },
{
    match PlacementMode::parse(name) {
        Some(mode) => Ok(mode),
        None => Err("지원하지 않는 위젯 배치 모드입니다."),
    }
}

/// The position of the free-floating widget is remembered when leaving the
/// overlay placement for another one.
pub fn saves_overlay_position(previous: PlacementMode, next: PlacementMode) -> (save: bool)
    ensures
        save == (previous == PlacementMode::Overlay && next != PlacementMode::Overlay),
{
    previous == PlacementMode::Overlay && next != PlacementMode::Overlay
}

/// The detail panel closes after losing focus unless it got the focus back
/// or the user is interacting with the compact widget.
pub fn hides_detail_after_blur(detail_focused: bool, widget_interaction: bool) -> (hide: bool)
    ensures
        hide == (!detail_focused && !widget_interaction),
{
    !detail_focused && !widget_interaction
}

/// Whether autostart is on after a successful toggle: as read back, or the
/// opposite of before when it cannot be read.
pub fn autostart_after_toggle(was_enabled: bool, read_back: Option<bool>) -> (enabled: bool)
    ensures
        enabled == match read_back {
            Some(b) => b,
            None => !was_enabled,
        },
{
    match read_back {
        Some(b) => b,
        None => !was_enabled,
    }
}

} // verus!
