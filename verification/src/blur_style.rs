use vstd::prelude::*;

verus! {

/// Backdrop blur material drawn behind a window.
///
/// Applied via the accent policy (`SetWindowCompositionAttribute` and
/// `ACCENT_POLICY`). The material is only visible through the window's own
/// translucent pixels, such as those of a terminal with per-pixel background
/// opacity; windows that paint fully opaque pixels show no visible change.
///
/// # Platform-specific
///
/// Only has an effect on Windows.
#[derive(Clone, Copy, Debug, PartialEq, Eq, Structural)]
pub enum BlurStyle {
    /// Acrylic blur-behind (`ACCENT_ENABLE_ACRYLICBLURBEHIND`): richer frost
    /// with a noise texture. Known to be more expensive during live window
    /// drags.
    Acrylic,
    /// Classic blur-behind (`ACCENT_ENABLE_BLURBEHIND`): cheaper, no noise
    /// texture, no drag-lag reputation.
    Blur,
}

impl Default for BlurStyle {
    fn default() -> (style: Self)
        ensures
            style == BlurStyle::Acrylic,
    {
        BlurStyle::Acrylic
    }
}

} // verus!
