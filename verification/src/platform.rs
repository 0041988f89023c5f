//! Platform detection and configuration.

use vstd::prelude::*;

verus! {

/// Target platform for the game.
#[derive(Debug, Clone, Copy, PartialEq, Eq, Structural)]
pub enum Platform {
    /// Desktop development mode (Windows, macOS, Linux)
    Desktop,
    /// Switch-style console in docked mode (1920x1080)
    SwitchDocked,
    /// Switch-style console in handheld mode (1280x720)
    SwitchHandheld,
}

impl Platform {
    /// Native resolution of each platform, as a (width, height) pair.
    pub open spec fn spec_resolution(self) -> (u32, u32) {
        match self {
            Platform::Desktop => (1920u32, 1080u32),
            Platform::SwitchDocked => (1920u32, 1080u32),
            Platform::SwitchHandheld => (1280u32, 720u32),
        }
    }

    /// Human-readable name of each platform.
    pub open spec fn spec_name(self) -> Seq<char> {
        match self {
            Platform::Desktop => "Desktop"@,
            Platform::SwitchDocked => "Nintendo Switch (Docked)"@,
            Platform::SwitchHandheld => "Nintendo Switch (Handheld)"@,
        }
    }

    /// The platform this build targets. Desktop builds report `Desktop`;
    /// a console build would report a docked console instead.
    pub fn current() -> (r: Self)
        ensures
            r == Platform::Desktop,
    {
        Platform::Desktop
    }

    /// Get human-readable name for the platform.
    pub fn name(&self) -> (r: &'static str)
        ensures
            r@ == self.spec_name(),
    {
        match self {
            Platform::Desktop => "Desktop",
            Platform::SwitchDocked => "Nintendo Switch (Docked)",
            Platform::SwitchHandheld => "Nintendo Switch (Handheld)",
        }
    }

    /// Get the native resolution for this platform.
    pub fn resolution(&self) -> (r: (u32, u32))
        ensures
            r == self.spec_resolution(),
    {
        match self {
            Platform::Desktop => (1920, 1080),
            Platform::SwitchDocked => (1920, 1080),
            Platform::SwitchHandheld => (1280, 720),
        }
    }

    /// Check if running on a console (any mode).
    pub fn is_switch(&self) -> (r: bool)
        ensures
            r == (self is SwitchDocked || self is SwitchHandheld),
    {
        matches!(self, Platform::SwitchDocked | Platform::SwitchHandheld)
    }
}

impl Default for Platform {
    /// The default platform is the desktop development target.
    fn default() -> (r: Self)
        ensures
            r == Platform::Desktop,
    {
        Platform::Desktop
    }
}

/// Every platform maps to a non-zero resolution and a non-empty name:
/// the lookup tables are total and never yield a degenerate display.
pub proof fn lemma_platform_tables_nondegenerate(p: Platform)
    ensures
        p.spec_resolution().0 > 0,
        p.spec_resolution().1 > 0,
        p.spec_name().len() > 0,
{
    reveal_strlit("Desktop");
    reveal_strlit("Nintendo Switch (Docked)");
    reveal_strlit("Nintendo Switch (Handheld)");
}

/// Display mode for the console.
#[derive(Debug, Clone, Copy, PartialEq, Eq, Structural)]
pub enum DisplayMode {
    /// Docked mode - TV output at 1080p
    Docked,
    /// Handheld mode - built-in screen at 720p
    Handheld,
    /// Tabletop mode - using kickstand, same as handheld resolution
    Tabletop,
}

impl DisplayMode {
    /// Resolution of each display mode, as a (width, height) pair.
    pub open spec fn spec_resolution(self) -> (u32, u32) {
        match self {
            DisplayMode::Docked => (1920u32, 1080u32),
            DisplayMode::Handheld | DisplayMode::Tabletop => (1280u32, 720u32),
        }
    }

    /// Get resolution for this display mode.
    pub fn resolution(&self) -> (r: (u32, u32))
        ensures
            r == self.spec_resolution(),
    {
        match self {
            DisplayMode::Docked => (1920, 1080),
            DisplayMode::Handheld | DisplayMode::Tabletop => (1280, 720),
        }
    }
}

impl Default for DisplayMode {
    /// The default display mode is docked output.
    fn default() -> (r: Self)
        ensures
            r == DisplayMode::Docked,
    {
        DisplayMode::Docked
    }
}

/// The display-mode table takes exactly two distinct values: docked mode is
/// 1920x1080, and both handheld and tabletop are 1280x720.
pub proof fn lemma_display_mode_two_resolutions(m: DisplayMode)
    ensures
        m is Docked ==> m.spec_resolution() == (1920u32, 1080u32),
        !(m is Docked) ==> m.spec_resolution() == (1280u32, 720u32),
        m.spec_resolution() == (1920u32, 1080u32) || m.spec_resolution() == (1280u32, 720u32),
{
}

/// Runtime configuration for the platform shim.
#[derive(Debug, PartialEq)]
pub struct SwitchConfig {
    /// Current platform.
    pub platform: Platform,
    /// Current display mode.
    pub display_mode: DisplayMode,
    /// Target resolution.
    pub resolution: (u32, u32),
    /// Target frame rate (consoles typically target 30 or 60 FPS).
    pub target_fps: u32,
    /// Enable performance profiling overlay.
    pub show_perf_overlay: bool,
}

impl Clone for SwitchConfig {
    /// A clone is field-for-field equal to the original.
    fn clone(&self) -> (r: Self)
        ensures
            r == *self,
    {
        SwitchConfig {
            platform: self.platform,
            display_mode: self.display_mode,
            resolution: self.resolution,
            target_fps: self.target_fps,
            show_perf_overlay: self.show_perf_overlay,
        }
    }
}

impl Default for SwitchConfig {
    /// The default configuration: the current platform at its native
    /// resolution, docked display mode, 60 FPS, overlay off.
    fn default() -> (r: Self)
        ensures
            r.platform == Platform::Desktop,
            r.display_mode == DisplayMode::Docked,
            r.resolution == Platform::Desktop.spec_resolution(),
            r.target_fps == 60,
            !r.show_perf_overlay,
    {
        let platform = Platform::current();
        let resolution = platform.resolution();
        SwitchConfig {
            platform,
            display_mode: DisplayMode::Docked,
            resolution,
            target_fps: 60,
            show_perf_overlay: false,
        }
    }
}

impl SwitchConfig {
    /// Create config for docked mode.
    pub fn docked() -> (r: Self)
        ensures
            r.platform == Platform::SwitchDocked,
            r.display_mode == DisplayMode::Docked,
            r.resolution == (1920u32, 1080u32),
            r.target_fps == 60,
            !r.show_perf_overlay,
    {
        SwitchConfig {
            platform: Platform::SwitchDocked,
            display_mode: DisplayMode::Docked,
            resolution: (1920, 1080),
            target_fps: 60,
            show_perf_overlay: false,
        }
    }

    /// Create config for handheld mode.
    pub fn handheld() -> (r: Self)
        ensures
            r.platform == Platform::SwitchHandheld,
            r.display_mode == DisplayMode::Handheld,
            r.resolution == (1280u32, 720u32),
            r.target_fps == 60,
            !r.show_perf_overlay,
    {
        SwitchConfig {
            platform: Platform::SwitchHandheld,
            display_mode: DisplayMode::Handheld,
            resolution: (1280, 720),
            target_fps: 60,
            show_perf_overlay: false,
        }
    }

    /// Set target frame rate, keeping every other setting.
    pub fn with_fps(self, fps: u32) -> (r: Self)
        ensures
            r.target_fps == fps,
            r.platform == self.platform,
            r.display_mode == self.display_mode,
            r.resolution == self.resolution,
            r.show_perf_overlay == self.show_perf_overlay,
    {
        let mut c = self;
        c.target_fps = fps;
        c
    }
}

} // verus!
