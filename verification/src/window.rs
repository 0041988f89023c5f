//! Window and display management.

use vstd::prelude::*;
use crate::platform::{DisplayMode, SwitchConfig};

verus! {

/// Display configuration resource.
#[derive(Debug, PartialEq)]
pub struct SwitchDisplay {
    /// Current display mode.
    pub mode: DisplayMode,
    /// Current resolution.
    pub resolution: (u32, u32),
    /// Whether vsync is enabled.
    pub vsync: bool,
}

impl Clone for SwitchDisplay {
    /// A clone is field-for-field equal to the original.
    fn clone(&self) -> (r: Self)
        ensures
            r == *self,
    {
        SwitchDisplay { mode: self.mode, resolution: self.resolution, vsync: self.vsync }
    }
}

impl Default for SwitchDisplay {
    /// The default display state: docked output at 1920x1080 with vsync on.
    fn default() -> (r: Self)
        ensures
            r.mode == DisplayMode::Docked,
            r.resolution == (1920u32, 1080u32),
            r.vsync,
    {
        SwitchDisplay {
            mode: DisplayMode::Docked,
            resolution: (1920, 1080),
            vsync: true,
        }
    }
}

impl SwitchDisplay {
    /// Create display config for handheld mode.
    pub fn handheld() -> (r: Self)
        ensures
            r.mode == DisplayMode::Handheld,
            r.resolution == (1280u32, 720u32),
            r.vsync,
    {
        SwitchDisplay {
            mode: DisplayMode::Handheld,
            resolution: (1280, 720),
            vsync: true,
        }
    }
}

/// The display state one tick of change handling produces: on a configuration
/// change the mode and resolution are copied over (vsync is untouched), and
/// with no change the state is left exactly as it was.
pub open spec fn spec_after_change(config: SwitchConfig, config_changed: bool, d: SwitchDisplay) -> SwitchDisplay {
    if config_changed {
        SwitchDisplay { mode: config.display_mode, resolution: config.resolution, vsync: d.vsync }
    } else {
        d
    }
}

/// Handle a display mode change: when the runtime configuration was modified
/// since the last observation, copy its display mode and resolution into the
/// display state and report the resolution that presentation surfaces must be
/// resized to. When nothing changed, do no work at all.
///
/// The host's change-detection supplies `config_changed`; the caller applies
/// the returned resolution to every active window.
pub fn handle_display_mode_change(
    config: &SwitchConfig,
    config_changed: bool,
    display: &mut SwitchDisplay,
) -> (resize: Option<(u32, u32)>)
    ensures
        *final(display) == spec_after_change(*config, config_changed, *old(display)),
        resize == (if config_changed { Some(config.resolution) } else { None::<(u32, u32)> }),
{
    if !config_changed {
        return None;
    }
    display.mode = config.display_mode;
    display.resolution = config.resolution;
    Some(config.resolution)
}

/// Consecutive ticks without a configuration change leave the display state
/// exactly unchanged: change handling short-circuits all work.
pub proof fn lemma_quiet_ticks_leave_display_unchanged(
    c1: SwitchConfig,
    c2: SwitchConfig,
    d: SwitchDisplay,
)
    ensures
        spec_after_change(c2, false, spec_after_change(c1, false, d)) == d,
{
}

/// Preset window settings handed to the host engine: a title, a fixed
/// resolution, and whether the window may be resized.
#[derive(Debug, PartialEq)]
pub struct WindowSpec {
    /// Window title.
    pub title: String,
    /// Window width in pixels.
    pub width: u32,
    /// Window height in pixels.
    pub height: u32,
    /// Whether the window may be resized by the user.
    pub resizable: bool,
}

/// Helper to create docked-resolution window settings.
pub fn switch_window(title: String) -> (w: WindowSpec)
    ensures
        w.title == title,
        w.width == 1920,
        w.height == 1080,
        !w.resizable,
{
    WindowSpec { title, width: 1920, height: 1080, resizable: false }
}

/// Helper to create handheld-mode window settings.
pub fn handheld_window(title: String) -> (w: WindowSpec)
    ensures
        w.title == title,
        w.width == 1280,
        w.height == 720,
        !w.resizable,
{
    WindowSpec { title, width: 1280, height: 720, resizable: false }
}

} // verus!
