use vstd::prelude::*;

verus! {

/// The identity of a container: the 128 bits of its UUID.
#[derive(Clone, Copy, Debug, PartialEq, Eq, Structural)]
pub struct ContainerId {
    pub value: u128,
}

/// The axis along which a container lays its children out.
#[derive(Clone, Copy, Debug, PartialEq, Eq, Structural)]
pub enum TilingDirection {
    Horizontal,
    Vertical,
}

#[derive(Clone, Copy, Debug, PartialEq, Eq, Structural)]
pub enum LengthUnit {
    Percentage,
    Pixel,
}

/// A length, in pixels or relative to a monitor.
///
/// The window manager hands lengths on and never computes with them, so the
/// amount is held as the bit pattern of its single-precision number.
#[derive(Clone, Copy, Debug, PartialEq, Eq, Structural)]
pub struct LengthValue {
    pub amount_bits: u32,
    pub unit: LengthUnit,
}

impl LengthValue {
    /// The length of no pixels at all. The bit pattern of zero is zero.
    pub fn zero_px() -> (length: Self)
        ensures
            length == (LengthValue { amount_bits: 0, unit: LengthUnit::Pixel }),
    {
        LengthValue { amount_bits: 0, unit: LengthUnit::Pixel }
    }
}

/// How far each edge of a rectangle is moved outwards.
#[derive(Clone, Copy, Debug, PartialEq, Eq, Structural)]
pub struct RectDelta {
    pub left: LengthValue,
    pub top: LengthValue,
    pub right: LengthValue,
    pub bottom: LengthValue,
}

/// A rectangle on the screen, by its upper left corner and its extent.
#[derive(Clone, Copy, Debug, PartialEq, Eq, Structural)]
pub struct Rect {
    pub x: i32,
    pub y: i32,
    pub width: i32,
    pub height: i32,
}

/// An opacity as the user wrote it, held as the bit pattern of its
/// single-precision number.
#[derive(Clone, Copy, Debug, PartialEq, Eq, Structural)]
pub struct OpacityValue {
    pub bits: u32,
}

/// A change of opacity.
#[derive(Clone, Copy, Debug, PartialEq, Eq, Structural)]
pub struct OpacityDelta {
    pub amount: OpacityValue,
    pub is_negative: bool,
}

/// An opacity to draw a window with: one that the user wrote, or an alpha
/// value out of 255.
#[derive(Clone, Copy, Debug, PartialEq, Eq, Structural)]
pub enum Opacity {
    Value(OpacityValue),
    Alpha(u8),
}

#[derive(Clone, Copy, Debug, PartialEq, Eq, Structural)]
pub enum CornerStyle {
    Default,
    Square,
    Rounded,
    SmallRounded,
}

#[derive(Clone, Copy, Debug, PartialEq, Eq, Structural)]
pub enum TitleBarVisibility {
    Shown,
    Hidden,
}

/// The transparency that windows of one state are drawn with.
#[derive(Clone, Copy, Debug, PartialEq, Eq, Structural)]
pub struct StateTransparency {
    pub enabled: bool,
    pub opacity: OpacityValue,
}

#[derive(Clone, Copy, Debug, PartialEq, Eq, Structural)]
pub struct FloatingStateConfig {
    /// Whether to center new floating windows.
    pub centered: bool,
    /// Whether to show floating windows as always on top.
    pub shown_on_top: bool,
    pub transparency: StateTransparency,
}

#[derive(Clone, Copy, Debug, PartialEq, Eq, Structural)]
pub struct FullscreenStateConfig {
    /// Whether fullscreen windows are maximized where the platform can.
    pub maximized: bool,
    /// Whether to show fullscreen windows as always on top.
    pub shown_on_top: bool,
    pub transparency: StateTransparency,
}

#[derive(Clone, Copy, Debug, PartialEq, Eq, Structural)]
pub enum WindowState {
    Floating(FloatingStateConfig),
    Fullscreen(FullscreenStateConfig),
    Minimized,
    Tiling,
}

/// Where a floating window is to be placed.
#[derive(Clone, Copy, Debug, PartialEq, Eq, Structural)]
pub enum WindowPositionTarget {
    Centered,
    /// The x and the y coordinate; one that is absent is left as it is.
    Coordinates(Option<i32>, Option<i32>),
}

} // verus!
