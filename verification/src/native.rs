//! A plain-value model of the native event records the translator reads.
//!
//! The host converts each record the platform delivers into one of these
//! before handing it to the translator, copying the fields the translation
//! reads and collapsing everything without a mapping into
//! [`NativeEvent::Unsupported`].

use vstd::prelude::*;
use crate::event::Scalar;

verus! {

/// A native mouse-button identifier.
#[derive(Clone, Copy, PartialEq, Eq, Structural, Debug)]
pub enum NativeMouseButton {
    Unknown,
    Left,
    Middle,
    Right,
    X1,
    X2,
}

/// A native joystick-hat position.
#[derive(Clone, Copy, PartialEq, Eq, Structural, Debug)]
pub enum NativeHatState {
    Centered,
    Up,
    Right,
    Down,
    Left,
    RightUp,
    RightDown,
    LeftUp,
    LeftDown,
}

/// One native event record, reduced to the fields the translation reads.
#[derive(Clone, PartialEq, Eq, Debug)]
pub enum NativeEvent {
    /// The platform asked the application to quit.
    Quit { timestamp: u32 },
    /// Text typed while text input is active.
    TextInput { timestamp: u32, text: String },
    /// A key went down. `repeat` is set on the platform's auto-repeat.
    KeyDown {
        timestamp: u32,
        keycode: Option<u32>,
        scancode: Option<i32>,
        repeat: bool,
    },
    /// A key went up.
    KeyUp {
        timestamp: u32,
        keycode: Option<u32>,
        scancode: Option<i32>,
        repeat: bool,
    },
    /// A mouse button went down.
    MouseButtonDown { timestamp: u32, button: NativeMouseButton },
    /// A mouse button went up.
    MouseButtonUp { timestamp: u32, button: NativeMouseButton },
    /// The pointer moved: absolute position and the delta since the last
    /// motion, both in window coordinates.
    MouseMotion { timestamp: u32, x: i32, y: i32, dx: i32, dy: i32 },
    /// The scroll wheel moved.
    MouseWheel { timestamp: u32, dx: i32, dy: i32 },
    /// A joystick axis moved; the raw reading lies in [-32768, 32767].
    JoyAxisMotion { timestamp: u32, which: u32, axis: u8, value: i16 },
    /// A joystick button went down.
    JoyButtonDown { timestamp: u32, which: u32, button: u8 },
    /// A joystick button went up.
    JoyButtonUp { timestamp: u32, which: u32, button: u8 },
    /// A joystick hat switched position.
    JoyHatMotion { timestamp: u32, which: u32, hat: u8, state: NativeHatState },
    /// A finger went down on a touch device.
    FingerDown {
        timestamp: u32,
        touch_id: i64,
        finger_id: i64,
        x: Scalar,
        y: Scalar,
        pressure: Scalar,
    },
    /// A finger moved on a touch device.
    FingerMotion {
        timestamp: u32,
        touch_id: i64,
        finger_id: i64,
        x: Scalar,
        y: Scalar,
        pressure: Scalar,
    },
    /// A finger went up on a touch device.
    FingerUp {
        timestamp: u32,
        touch_id: i64,
        finger_id: i64,
        x: Scalar,
        y: Scalar,
        pressure: Scalar,
    },
    /// The window was resized. The host queries the drawable size from the
    /// platform when it converts the record, so the translator can store
    /// and report both sizes.
    Resized {
        timestamp: u32,
        width: u32,
        height: u32,
        draw_width: u32,
        draw_height: u32,
    },
    /// The window gained keyboard focus.
    FocusGained { timestamp: u32 },
    /// The window lost keyboard focus.
    FocusLost { timestamp: u32 },
    /// The cursor entered the window.
    Enter { timestamp: u32 },
    /// The cursor left the window.
    Leave { timestamp: u32 },
    /// Any native event with no mapping; it is dropped silently.
    Unsupported { timestamp: u32 },
}

} // verus!
