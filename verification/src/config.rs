use vstd::prelude::*;

use crate::values::{CornerStyle, FloatingStateConfig, FullscreenStateConfig};

verus! {

/// The transparency effect of a window, its opacity as an alpha value.
#[derive(Clone, Copy, Debug, PartialEq, Eq, Structural)]
pub struct TransparencyEffectConfig {
    pub enabled: bool,
    pub alpha: u8,
}

#[derive(Clone, Copy, Debug, PartialEq, Eq, Structural)]
pub struct CornerStyleEffectConfig {
    pub enabled: bool,
    pub style: CornerStyle,
}

#[derive(Clone, Copy, Debug, PartialEq, Eq, Structural)]
pub struct WindowEffectConfig {
    pub transparency: TransparencyEffectConfig,
    pub corner_style: CornerStyleEffectConfig,
}

/// What the window manager reads of the user's configuration, at one moment.
#[derive(Clone, Copy, Debug, PartialEq, Eq, Structural)]
pub struct UserConfig {
    /// Whether the tiling direction follows the shape of the focused window.
    pub auto_set_tiling_direction: bool,
    /// Whether closing a window is animated.
    pub window_close_animation: bool,
    /// The effects of the window that has focus.
    pub focused_window: WindowEffectConfig,
    /// The effects of every other window.
    pub other_windows: WindowEffectConfig,
    pub floating_defaults: FloatingStateConfig,
    pub fullscreen_defaults: FullscreenStateConfig,
}

} // verus!
