//! Prelude module - import commonly used items.

pub use crate::input::{GamepadRead, SwitchButton, SwitchController, SwitchInput};
pub use crate::platform::{DisplayMode, Platform, SwitchConfig};
pub use crate::stick::StickVec;
pub use crate::window::{handheld_window, switch_window, SwitchDisplay, WindowSpec};
