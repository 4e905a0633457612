use codex_pulse::control::{
    autostart_after_toggle, hides_detail_after_blur, menu_action, placement_request,
    saves_overlay_position, MenuAction, ThemeChoice,
};
use codex_pulse::logging::{log_directory, log_path};
use codex_pulse::taskbar::PlacementMode;

#[test]
fn tray_menu_ids() {
    assert_eq!(menu_action("show"), Some(MenuAction::Show));
    assert_eq!(
        menu_action("taskbar_mode"),
        Some(MenuAction::SetPlacement(PlacementMode::Taskbar))
    );
    assert_eq!(
        menu_action("overlay_mode"),
        Some(MenuAction::SetPlacement(PlacementMode::Overlay))
    );
    assert_eq!(menu_action("light_theme"), Some(MenuAction::SetTheme(ThemeChoice::Light)));
    assert_eq!(menu_action("dark_theme"), Some(MenuAction::SetTheme(ThemeChoice::Dark)));
    assert_eq!(menu_action("autostart"), Some(MenuAction::ToggleAutostart));
    assert_eq!(menu_action("refresh"), Some(MenuAction::Refresh));
    assert_eq!(menu_action("hide"), Some(MenuAction::Hide));
    assert_eq!(menu_action("quit"), Some(MenuAction::Quit));
    assert_eq!(menu_action("Quit"), None);
}

#[test]
fn placement_requests() {
    assert_eq!(placement_request("taskbar"), Ok(PlacementMode::Taskbar));
    assert_eq!(placement_request("overlay"), Ok(PlacementMode::Overlay));
    assert_eq!(
        placement_request("floating"),
        Err("지원하지 않는 위젯 배치 모드입니다.")
    );
}

#[test]
fn shell_rules() {
    assert!(saves_overlay_position(PlacementMode::Overlay, PlacementMode::Taskbar));
    assert!(!saves_overlay_position(PlacementMode::Overlay, PlacementMode::Overlay));
    assert!(!saves_overlay_position(PlacementMode::Taskbar, PlacementMode::Overlay));
    assert!(hides_detail_after_blur(false, false));
    assert!(!hides_detail_after_blur(true, false));
    assert!(!hides_detail_after_blur(false, true));
    assert!(autostart_after_toggle(false, None));
    assert!(!autostart_after_toggle(false, Some(false)));
}

#[test]
fn log_locations() {
    assert_eq!(log_path(None), None);
    let base = std::path::Path::new("base");
    let expected_dir = base.join("Codex Pulse").join("logs");
    assert_eq!(
        log_directory(Some("base")),
        Some(expected_dir.to_string_lossy().into_owned())
    );
    assert_eq!(
        log_path(Some("base")),
        Some(expected_dir.join("codex-pulse.log").to_string_lossy().into_owned())
    );
}
