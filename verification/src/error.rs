//! The errors window creation can surface. All construction-time failures
//! reach the caller as one of these; none is retried automatically except
//! the single multisample fallback.

use vstd::prelude::*;

verus! {

/// Why creating a window failed.
#[derive(PartialEq, Eq, Debug)]
pub enum Error {
    /// The native video subsystem could not be initialized.
    SubsystemInitFailed,
    /// A graphics API other than the supported one was requested.
    UnsupportedGraphicsApi {
        /// The requested API's name.
        found: String,
        /// The supported API's name.
        expected: String,
    },
    /// The native window could not be built, after exhausting the
    /// multisample-fallback retry.
    WindowCreationFailed,
    /// The OpenGL context could not be created.
    ContextCreationFailed,
    /// The platform rejected the requested swap interval.
    SwapIntervalRejected,
    /// The joystick subsystem could not be acquired.
    JoystickSubsystemUnavailable,
    /// A connected joystick could not be opened.
    JoystickOpenFailed {
        /// The device that failed to open.
        device_id: u32,
    },
}

} // verus!
