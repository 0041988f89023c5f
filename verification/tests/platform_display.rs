//! Platform table, configuration, and display change-detection tests.

use switchbrew_bevy::platform::{DisplayMode, Platform, SwitchConfig};
use switchbrew_bevy::window::{handheld_window, handle_display_mode_change, switch_window,
    SwitchDisplay};

#[test]
fn platform_resolutions_are_nonzero() {
    let all = [Platform::Desktop, Platform::SwitchDocked, Platform::SwitchHandheld];
    for p in all {
        let (w, h) = p.resolution();
        assert!(w > 0 && h > 0);
        assert!(!p.name().is_empty());
    }
}

#[test]
fn platform_tables_exact() {
    assert_eq!(Platform::Desktop.resolution(), (1920, 1080));
    assert_eq!(Platform::SwitchDocked.resolution(), (1920, 1080));
    assert_eq!(Platform::SwitchHandheld.resolution(), (1280, 720));
    assert_eq!(Platform::Desktop.name(), "Desktop");
    assert_eq!(Platform::SwitchDocked.name(), "Nintendo Switch (Docked)");
    assert_eq!(Platform::SwitchHandheld.name(), "Nintendo Switch (Handheld)");
}

#[test]
fn platform_current_is_desktop() {
    assert_eq!(Platform::current(), Platform::Desktop);
    assert!(!Platform::current().is_switch());
    assert!(Platform::SwitchDocked.is_switch());
    assert!(Platform::SwitchHandheld.is_switch());
}

#[test]
fn display_mode_two_resolutions() {
    assert_eq!(DisplayMode::Docked.resolution(), (1920, 1080));
    assert_eq!(DisplayMode::Handheld.resolution(), (1280, 720));
    assert_eq!(DisplayMode::Tabletop.resolution(), (1280, 720));
}

#[test]
fn config_default_values() {
    let c = SwitchConfig::default();
    assert_eq!(c.platform, Platform::Desktop);
    assert_eq!(c.display_mode, DisplayMode::Docked);
    assert_eq!(c.resolution, (1920, 1080));
    assert_eq!(c.target_fps, 60);
    assert!(!c.show_perf_overlay);
}

#[test]
fn config_docked_and_handheld() {
    let d = SwitchConfig::docked();
    assert_eq!(d.platform, Platform::SwitchDocked);
    assert_eq!(d.display_mode, DisplayMode::Docked);
    assert_eq!(d.resolution, (1920, 1080));
    let h = SwitchConfig::handheld();
    assert_eq!(h.platform, Platform::SwitchHandheld);
    assert_eq!(h.display_mode, DisplayMode::Handheld);
    assert_eq!(h.resolution, (1280, 720));
    assert_eq!(h.target_fps, 60);
}

#[test]
fn config_with_fps_overrides_only_fps() {
    let c = SwitchConfig::handheld().with_fps(30);
    assert_eq!(c.target_fps, 30);
    assert_eq!(c.platform, Platform::SwitchHandheld);
    assert_eq!(c.resolution, (1280, 720));
}

#[test]
fn display_defaults_and_handheld() {
    let d = SwitchDisplay::default();
    assert_eq!(d.mode, DisplayMode::Docked);
    assert_eq!(d.resolution, (1920, 1080));
    assert!(d.vsync);
    let h = SwitchDisplay::handheld();
    assert_eq!(h.mode, DisplayMode::Handheld);
    assert_eq!(h.resolution, (1280, 720));
    assert!(h.vsync);
}

#[test]
fn handheld_config_applies_only_on_changed_tick() {
    // The runtime configuration starts at the desktop default.
    let mut config = SwitchConfig::default();
    let mut display = SwitchDisplay::default();
    assert_eq!(display.resolution, (1920, 1080));

    // Replacing the configuration does not touch the display by itself.
    config = SwitchConfig::handheld();
    assert_eq!(config.resolution, (1280, 720));
    assert_eq!(display.resolution, (1920, 1080));

    // Only the next tick's change detection propagates the new resolution.
    let resize = handle_display_mode_change(&config, true, &mut display);
    assert_eq!(display.resolution, (1280, 720));
    assert_eq!(display.mode, DisplayMode::Handheld);
    assert_eq!(resize, Some((1280, 720)));
}

#[test]
fn quiet_ticks_leave_display_unchanged() {
    let config = SwitchConfig::docked();
    let mut display = SwitchDisplay::handheld();
    let before = display.clone();
    let r1 = handle_display_mode_change(&config, false, &mut display);
    let r2 = handle_display_mode_change(&config, false, &mut display);
    assert_eq!(display, before);
    assert_eq!(r1, None);
    assert_eq!(r2, None);
}

#[test]
fn window_presets() {
    let w = switch_window(String::from("game"));
    assert_eq!(w.title, "game");
    assert_eq!((w.width, w.height), (1920, 1080));
    assert!(!w.resizable);
    let h = handheld_window(String::from("game"));
    assert_eq!((h.width, h.height), (1280, 720));
    assert!(!h.resizable);
}
