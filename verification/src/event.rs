//! The abstract input events: the closed set of normalized events that
//! every native event record is translated into.

use vstd::prelude::*;

verus! {

/// Whether a button changed to pressed or to released.
#[derive(Clone, Copy, PartialEq, Eq, Structural, Debug)]
pub enum ButtonState {
    Press,
    Release,
}

/// An abstract keyboard key. Native keycodes correspond to abstract key
/// codes directly, so the identifier is the numeric code itself.
#[derive(Clone, Copy, PartialEq, Eq, Structural, Debug)]
pub struct Key {
    /// The key's code, equal to the native keycode it was mapped from.
    pub code: u32,
}

/// An abstract mouse button.
#[derive(Clone, Copy, PartialEq, Eq, Structural, Debug)]
pub enum MouseButton {
    Unknown,
    Left,
    Middle,
    Right,
    X1,
    X2,
}

/// The identity of the control a button event speaks of.
#[derive(Clone, Copy, PartialEq, Eq, Structural, Debug)]
pub enum ButtonId {
    Keyboard(Key),
    Mouse(MouseButton),
}

/// The direction a joystick hat points.
#[derive(Clone, Copy, PartialEq, Eq, Structural, Debug)]
pub enum HatDirection {
    Centered,
    Up,
    Right,
    Down,
    Left,
    RightUp,
    RightDown,
    LeftUp,
    LeftDown,
}

/// The phase of a touch: the finger went down, moved, or went up.
#[derive(Clone, Copy, PartialEq, Eq, Structural, Debug)]
pub enum TouchPhase {
    Start,
    Move,
    End,
}

/// A fractional scalar carried through untouched, as the bit pattern of an
/// IEEE 754 single. The translator never interprets these values; the host
/// converts them at the boundary.
#[derive(Clone, Copy, PartialEq, Eq, Structural, Debug)]
pub struct Scalar {
    /// The raw bit pattern.
    pub bits: u32,
}

/// A normalized joystick-axis value in [-1, 1]: the fraction
/// `numerator / AXIS_MAX`, with the numerator clamped to
/// [`-AXIS_MAX`, `AXIS_MAX`] (see [`crate::keymap::AXIS_MAX`]).
#[derive(Clone, Copy, PartialEq, Eq, Structural, Debug)]
pub struct AxisValue {
    /// The numerator over the fixed denominator `AXIS_MAX`.
    pub numerator: i16,
}

/// One abstract input event.
#[derive(Clone, PartialEq, Eq, Debug)]
pub enum AbstractEvent {
    /// The user asked to close the window.
    Close,
    /// Text delivered through the platform's text-input facility.
    Text(String),
    /// A keyboard key or mouse button changed state.
    Button {
        state: ButtonState,
        button: ButtonId,
        /// The raw scancode of a keyboard event, where the platform gave one.
        scancode: Option<i32>,
    },
    /// Absolute pointer position, in window coordinates.
    PointerMotion { x: i32, y: i32 },
    /// Relative pointer motion.
    PointerRelativeMotion { dx: i32, dy: i32 },
    /// Scroll wheel motion.
    PointerScroll { dx: i32, dy: i32 },
    /// A joystick axis moved; the reading is normalized into [-1, 1].
    ControllerAxis { device: u32, axis: u8, value: AxisValue },
    /// A joystick button changed state.
    ControllerButton { state: ButtonState, device: u32, button: u8 },
    /// A joystick hat switched direction.
    ControllerHat { device: u32, hat: u8, direction: HatDirection },
    /// A finger went down, moved, or went up on a touch device.
    Touch {
        device: i64,
        finger: i64,
        x: Scalar,
        y: Scalar,
        pressure: Scalar,
        phase: TouchPhase,
    },
    /// The window was resized: the new logical size and the new drawable
    /// (pixel) size, which may differ under display scaling.
    Resize { width: u32, height: u32, draw_width: u32, draw_height: u32 },
    /// The window gained or lost keyboard focus.
    Focus(bool),
    /// The cursor entered or left the window.
    CursorEnter(bool),
}

/// An abstract event together with the native timestamp it was delivered
/// at, where one is known.
#[derive(Clone, PartialEq, Eq, Debug)]
pub struct TimedEvent {
    pub event: AbstractEvent,
    pub time: Option<u32>,
}

} // verus!
