//! The requested window attributes: the immutable input to creation.

use vstd::prelude::*;

verus! {

/// The graphics API a window is requested with: an API name and a
/// version. Only OpenGL is supported; anything else is rejected at
/// creation.
#[derive(Clone, PartialEq, Eq, Debug)]
pub struct GraphicsApi {
    /// The API's name.
    pub name: String,
    /// Requested major version.
    pub major: u32,
    /// Requested minor version.
    pub minor: u32,
}

/// The name of the one supported graphics API.
pub open spec fn supported_api_name() -> Seq<char> {
    "OpenGL"@
}

impl GraphicsApi {
    /// The supported API, at the given version.
    pub fn opengl(major: u32, minor: u32) -> (r: GraphicsApi)
        ensures
            r.name@ == supported_api_name(),
            r.major == major,
            r.minor == minor,
    {
        GraphicsApi { name: "OpenGL".to_owned(), major, minor }
    }
}

/// Everything a window is requested with. Consumed once, at creation.
#[derive(Clone, PartialEq, Eq, Debug)]
pub struct WindowConfig {
    /// The window title.
    pub title: String,
    /// Requested logical width.
    pub width: u32,
    /// Requested logical height.
    pub height: u32,
    /// Open fullscreen.
    pub fullscreen: bool,
    /// Let the user resize the window.
    pub resizable: bool,
    /// Draw the window frame (false: borderless).
    pub decorated: bool,
    /// Best-effort transparent window (failure to apply is ignored).
    pub transparent: bool,
    /// Synchronize buffer swaps with the display.
    pub vsync: bool,
    /// Ask for an sRGB-compatible framebuffer.
    pub srgb: bool,
    /// Multisample-antialiasing sample count; 0 disables multisampling.
    pub samples: u8,
    /// The requested graphics API and version.
    pub api: GraphicsApi,
    /// Close the window when Escape is pressed.
    pub exit_on_esc: bool,
    /// Let a quit request set the should-close flag by itself.
    pub automatic_close: bool,
    /// Open every connected joystick at creation.
    pub controllers: bool,
}

impl WindowConfig {
    /// A config with the given title and logical size and the default
    /// attributes: windowed, resizable, decorated, opaque, no vsync, sRGB
    /// on, no multisampling, OpenGL 3.2, no exit-on-escape, automatic
    /// close on, no controllers.
    pub fn new(title: String, width: u32, height: u32) -> (r: WindowConfig)
        ensures
            r.title == title,
            r.width == width,
            r.height == height,
            !r.fullscreen,
            r.resizable,
            r.decorated,
            !r.transparent,
            !r.vsync,
            r.srgb,
            r.samples == 0,
            r.api.name@ == supported_api_name(),
            r.api.major == 3,
            r.api.minor == 2,
            !r.exit_on_esc,
            r.automatic_close,
            !r.controllers,
    {
        WindowConfig {
            title,
            width,
            height,
            fullscreen: false,
            resizable: true,
            decorated: true,
            transparent: false,
            vsync: false,
            srgb: true,
            samples: 0,
            api: GraphicsApi::opengl(3, 2),
            exit_on_esc: false,
            automatic_close: true,
            controllers: false,
        }
    }
}

} // verus!
