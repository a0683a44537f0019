//! Total mappings from native input codes to abstract identifiers, and
//! joystick-axis normalization.

use vstd::prelude::*;
use crate::event::{HatDirection, Key, MouseButton};
use crate::native::{NativeHatState, NativeMouseButton};

verus! {

/// The key code of the Escape key, shared by the native keycode table and
/// the abstract key identifiers.
pub const KEY_ESCAPE: u32 = 27;

/// Largest magnitude of a normalized joystick-axis numerator. A normalized
/// axis value is `numerator / AXIS_MAX`, so a numerator of `AXIS_MAX`
/// stands for exactly 1 and `-AXIS_MAX` for exactly -1.
pub const AXIS_MAX: i16 = 32767;

/// The numerator a raw joystick-axis reading normalizes to: the reading
/// itself, clamped to [`-AXIS_MAX`, `AXIS_MAX`].
pub open spec fn spec_normalize_axis(value: i16) -> i16 {
    if value < -AXIS_MAX {
        (-AXIS_MAX) as i16
    } else {
        value
    }
}

/// Normalizes a raw joystick-axis reading in [-32768, 32767] to the
/// numerator of a value in [-1, 1] over the fixed denominator [`AXIS_MAX`].
/// The one raw value whose magnitude exceeds `AXIS_MAX` is clamped, so the
/// extreme readings map to exactly -1 and exactly 1.
pub fn normalize_axis(value: i16) -> (r: i16)
    ensures
        r == spec_normalize_axis(value),
        -AXIS_MAX <= r <= AXIS_MAX,
        value >= -AXIS_MAX ==> r == value,
        value < -AXIS_MAX ==> r == -AXIS_MAX,
{
    if value < -AXIS_MAX {
        -AXIS_MAX
    } else {
        value
    }
}

/// Maps a native keycode to the abstract key identifier. The correspondence
/// is numeric: the abstract key code equals the native keycode.
pub fn sdl2_map_key(keycode: u32) -> (r: Key)
    ensures
        r.code == keycode,
{
    Key { code: keycode }
}

/// The abstract mouse button a native mouse-button identifier maps to.
pub open spec fn spec_map_mouse(button: NativeMouseButton) -> MouseButton {
    match button {
        NativeMouseButton::Unknown => MouseButton::Unknown,
        NativeMouseButton::Left => MouseButton::Left,
        NativeMouseButton::Middle => MouseButton::Middle,
        NativeMouseButton::Right => MouseButton::Right,
        NativeMouseButton::X1 => MouseButton::X1,
        NativeMouseButton::X2 => MouseButton::X2,
    }
}

/// Maps a native mouse-button identifier to the abstract mouse button,
/// one for one.
pub fn sdl2_map_mouse(button: NativeMouseButton) -> (r: MouseButton)
    ensures
        r == spec_map_mouse(button),
{
    match button {
        NativeMouseButton::Unknown => MouseButton::Unknown,
        NativeMouseButton::Left => MouseButton::Left,
        NativeMouseButton::Middle => MouseButton::Middle,
        NativeMouseButton::Right => MouseButton::Right,
        NativeMouseButton::X1 => MouseButton::X1,
        NativeMouseButton::X2 => MouseButton::X2,
    }
}

/// The abstract hat direction a native hat position maps to.
pub open spec fn spec_map_hat(state: NativeHatState) -> HatDirection {
    match state {
        NativeHatState::Centered => HatDirection::Centered,
        NativeHatState::Up => HatDirection::Up,
        NativeHatState::Right => HatDirection::Right,
        NativeHatState::Down => HatDirection::Down,
        NativeHatState::Left => HatDirection::Left,
        NativeHatState::RightUp => HatDirection::RightUp,
        NativeHatState::RightDown => HatDirection::RightDown,
        NativeHatState::LeftUp => HatDirection::LeftUp,
        NativeHatState::LeftDown => HatDirection::LeftDown,
    }
}

/// Maps a native joystick-hat position to the abstract hat direction,
/// one for one.
pub fn sdl2_map_hat(state: NativeHatState) -> (r: HatDirection)
    ensures
        r == spec_map_hat(state),
{
    match state {
        NativeHatState::Centered => HatDirection::Centered,
        NativeHatState::Up => HatDirection::Up,
        NativeHatState::Right => HatDirection::Right,
        NativeHatState::Down => HatDirection::Down,
        NativeHatState::Left => HatDirection::Left,
        NativeHatState::RightUp => HatDirection::RightUp,
        NativeHatState::RightDown => HatDirection::RightDown,
        NativeHatState::LeftUp => HatDirection::LeftUp,
        NativeHatState::LeftDown => HatDirection::LeftDown,
    }
}

} // verus!
