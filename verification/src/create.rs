//! The Context Initializer: the protocol that turns a [`WindowConfig`]
//! into a ready window, as a state machine over the outcomes of the
//! native steps.
//!
//! The host walks the machine: each [`CreateState`] names the one native
//! step to perform next; the host performs it and reports a
//! [`StepOutcome`], and [`create_advance`] decides what follows — in
//! particular the single retry without multisampling when the
//! multisampled window build fails. On [`CreateState::Finish`] the host
//! queries the drawable size and builds the initial [`WindowState`] with
//! [`finish_create`]; on [`CreateState::Failed`] creation surfaces that
//! error and nothing else is retried.

use vstd::prelude::*;
use crate::config::{supported_api_name, GraphicsApi, WindowConfig};
use crate::error::Error;
use crate::state::WindowState;

verus! {

/// The pixel-format and context attributes one window build requests.
#[derive(Clone, Copy, PartialEq, Eq, Structural, Debug)]
pub struct GlAttributes {
    /// Bits for the red channel.
    pub red_bits: u8,
    /// Bits for the green channel.
    pub green_bits: u8,
    /// Bits for the blue channel.
    pub blue_bits: u8,
    /// Bits for the alpha channel.
    pub alpha_bits: u8,
    /// Bits for the stencil buffer.
    pub stencil_bits: u8,
    /// Requested context major version.
    pub major: u32,
    /// Requested context minor version.
    pub minor: u32,
    /// Ask for an sRGB-compatible framebuffer.
    pub srgb: bool,
    /// Request a core profile (when the requested version is at least 3.2).
    pub core_profile: bool,
    /// Number of multisample buffers (1 when multisampling, else 0).
    pub multisample_buffers: u8,
    /// Number of multisample samples (the configured count, else 0).
    pub multisample_samples: u8,
}

/// Whether the requested version is at least 3.2, the first version that
/// asks for a core profile.
pub open spec fn wants_core_profile(api: GraphicsApi) -> bool {
    api.major > 3 || (api.major == 3 && api.minor >= 2)
}

/// The attributes to apply before a window build: 8 bits per color
/// channel, an 8-bit stencil, the requested context version and sRGB
/// compatibility, a core profile from version 3.2 on, and the configured
/// multisampling — or none, when `multisampling` is false (the fallback
/// build) or the configured sample count is 0.
pub fn gl_attributes(config: &WindowConfig, multisampling: bool) -> (r: GlAttributes)
    ensures
        r.red_bits == 8 && r.green_bits == 8 && r.blue_bits == 8 && r.alpha_bits == 8,
        r.stencil_bits == 8,
        r.major == config.api.major,
        r.minor == config.api.minor,
        r.srgb == config.srgb,
        r.core_profile == wants_core_profile(config.api),
        multisampling && config.samples > 0 ==> r.multisample_buffers == 1
            && r.multisample_samples == config.samples,
        !(multisampling && config.samples > 0) ==> r.multisample_buffers == 0
            && r.multisample_samples == 0,
{
    let with_samples = multisampling && config.samples > 0;
    GlAttributes {
        red_bits: 8,
        green_bits: 8,
        blue_bits: 8,
        alpha_bits: 8,
        stencil_bits: 8,
        major: config.api.major,
        minor: config.api.minor,
        srgb: config.srgb,
        core_profile: config.api.major > 3 || (config.api.major == 3 && config.api.minor >= 2),
        multisample_buffers: if with_samples { 1 } else { 0 },
        multisample_samples: if with_samples { config.samples } else { 0 },
    }
}

/// Checks that the requested graphics API is the supported one, and
/// otherwise reports both the requested and the supported name.
pub fn validate_api(api: &GraphicsApi) -> (r: Result<(), Error>)
    ensures
        r is Ok <==> api.name@ == supported_api_name(),
        r matches Err(e) ==> (e matches Error::UnsupportedGraphicsApi { found, expected }
            && found@ == api.name@ && expected@ == supported_api_name()),
{
    let expected = "OpenGL".to_owned();
    if api.name == expected {
        Ok(())
    } else {
        Err(Error::UnsupportedGraphicsApi { found: api.name.clone(), expected })
    }
}

/// The swap interval to apply: 1 when vsync is requested, else 0.
pub fn swap_interval(vsync: bool) -> (r: i32)
    ensures
        vsync ==> r == 1,
        !vsync ==> r == 0,
{
    if vsync {
        1
    } else {
        0
    }
}

/// The one native step the host performs next, or a terminal verdict.
#[derive(PartialEq, Eq, Debug)]
pub enum CreateState {
    /// Initialize the native video subsystem.
    InitVideo,
    /// Check the requested graphics API with [`validate_api`].
    ValidateApi,
    /// Apply [`gl_attributes`]`(config, multisampling)`.
    ApplyAttributes { multisampling: bool },
    /// Build the native window (title, size, centered, OpenGL-capable,
    /// resizable/decorated/fullscreen per config).
    BuildWindow { multisampled: bool },
    /// Start native text-input delivery (cannot fail).
    StartTextInput,
    /// Create the GL context bound to the window.
    CreateContext,
    /// Load the GL function pointers (cannot fail).
    LoadGl,
    /// Apply [`swap_interval`].
    SetSwapInterval,
    /// Acquire the joystick subsystem and open every connected device;
    /// the outcome is classified by [`joystick_outcome`].
    InitJoysticks,
    /// Best-effort window transparency; failure is ignored.
    SetTransparency,
    /// Creation succeeded: query the drawable size and build the initial
    /// state with [`finish_create`].
    Finish,
    /// Creation failed with this error; nothing further is retried.
    Failed(Error),
}

/// What the host reports for one creation step.
#[derive(PartialEq, Eq, Debug)]
pub enum StepOutcome {
    /// The step succeeded.
    Success,
    /// The step failed. For most steps the machine substitutes the error
    /// the step stands for and the payload is dropped; for
    /// [`CreateState::ValidateApi`] and [`CreateState::InitJoysticks`] the
    /// payload is the classified error and is surfaced as given.
    Failure(Error),
}

/// The transition of the creation machine: from the step just performed
/// and its outcome to the next step or verdict.
pub open spec fn spec_create_advance(
    cfg: WindowConfig,
    state: CreateState,
    outcome: StepOutcome,
) -> CreateState {
    match state {
        CreateState::InitVideo => match outcome {
            StepOutcome::Success => CreateState::ValidateApi,
            StepOutcome::Failure(_) => CreateState::Failed(Error::SubsystemInitFailed),
        },
        CreateState::ValidateApi => match outcome {
            StepOutcome::Success => CreateState::ApplyAttributes {
                multisampling: cfg.samples > 0,
            },
            StepOutcome::Failure(e) => CreateState::Failed(e),
        },
        CreateState::ApplyAttributes { multisampling } => CreateState::BuildWindow {
            multisampled: multisampling && cfg.samples > 0,
        },
        CreateState::BuildWindow { multisampled } => match outcome {
            StepOutcome::Success => CreateState::StartTextInput,
            StepOutcome::Failure(_) => {
                if multisampled {
                    CreateState::ApplyAttributes { multisampling: false }
                } else {
                    CreateState::Failed(Error::WindowCreationFailed)
                }
            },
        },
        CreateState::StartTextInput => CreateState::CreateContext,
        CreateState::CreateContext => match outcome {
            StepOutcome::Success => CreateState::LoadGl,
            StepOutcome::Failure(_) => CreateState::Failed(Error::ContextCreationFailed),
        },
        CreateState::LoadGl => CreateState::SetSwapInterval,
        CreateState::SetSwapInterval => match outcome {
            StepOutcome::Success => {
                if cfg.controllers {
                    CreateState::InitJoysticks
                } else if cfg.transparent {
                    CreateState::SetTransparency
                } else {
                    CreateState::Finish
                }
            },
            StepOutcome::Failure(_) => CreateState::Failed(Error::SwapIntervalRejected),
        },
        CreateState::InitJoysticks => match outcome {
            StepOutcome::Success => {
                if cfg.transparent {
                    CreateState::SetTransparency
                } else {
                    CreateState::Finish
                }
            },
            StepOutcome::Failure(e) => CreateState::Failed(e),
        },
        CreateState::SetTransparency => CreateState::Finish,
        CreateState::Finish => CreateState::Finish,
        CreateState::Failed(e) => CreateState::Failed(e),
    }
}

/// Advances the creation machine by one performed step.
pub fn create_advance(config: &WindowConfig, state: CreateState, outcome: StepOutcome) -> (r:
    CreateState)
    ensures
        r == spec_create_advance(*config, state, outcome),
{
    match state {
        CreateState::InitVideo => match outcome {
            StepOutcome::Success => CreateState::ValidateApi,
            StepOutcome::Failure(_) => CreateState::Failed(Error::SubsystemInitFailed),
        },
        CreateState::ValidateApi => match outcome {
            StepOutcome::Success => CreateState::ApplyAttributes {
                multisampling: config.samples > 0,
            },
            StepOutcome::Failure(e) => CreateState::Failed(e),
        },
        CreateState::ApplyAttributes { multisampling } => CreateState::BuildWindow {
            multisampled: multisampling && config.samples > 0,
        },
        CreateState::BuildWindow { multisampled } => match outcome {
            StepOutcome::Success => CreateState::StartTextInput,
            StepOutcome::Failure(_) => {
                if multisampled {
                    CreateState::ApplyAttributes { multisampling: false }
                } else {
                    CreateState::Failed(Error::WindowCreationFailed)
                }
            },
        },
        CreateState::StartTextInput => CreateState::CreateContext,
        CreateState::CreateContext => match outcome {
            StepOutcome::Success => CreateState::LoadGl,
            StepOutcome::Failure(_) => CreateState::Failed(Error::ContextCreationFailed),
        },
        CreateState::LoadGl => CreateState::SetSwapInterval,
        CreateState::SetSwapInterval => match outcome {
            StepOutcome::Success => {
                if config.controllers {
                    CreateState::InitJoysticks
                } else if config.transparent {
                    CreateState::SetTransparency
                } else {
                    CreateState::Finish
                }
            },
            StepOutcome::Failure(_) => CreateState::Failed(Error::SwapIntervalRejected),
        },
        CreateState::InitJoysticks => match outcome {
            StepOutcome::Success => {
                if config.transparent {
                    CreateState::SetTransparency
                } else {
                    CreateState::Finish
                }
            },
            StepOutcome::Failure(e) => CreateState::Failed(e),
        },
        CreateState::SetTransparency => CreateState::Finish,
        CreateState::Finish => CreateState::Finish,
        CreateState::Failed(e) => CreateState::Failed(e),
    }
}

/// Whether every device in a sequence of per-device open results opened.
pub open spec fn all_opened(opens: Seq<bool>) -> bool {
    forall|i: int| 0 <= i < opens.len() ==> opens[i]
}

/// Classifies joystick initialization from the host's raw results:
/// whether the subsystem was acquired, and for each connected device in
/// order whether opening it succeeded. A subsystem failure wins; otherwise
/// the first device that failed to open is reported; otherwise the number
/// of opened devices is returned.
pub fn joystick_outcome(subsystem_ok: bool, opens: &Vec<bool>) -> (r: Result<u32, Error>)
    requires
        opens@.len() <= u32::MAX,
    ensures
        !subsystem_ok ==> r == Err::<u32, Error>(Error::JoystickSubsystemUnavailable),
        subsystem_ok && all_opened(opens@) ==> r == Ok::<u32, Error>(opens@.len() as u32),
        subsystem_ok && !all_opened(opens@) ==> (r matches Err(e)
            && e matches Error::JoystickOpenFailed { device_id }
            && 0 <= device_id < opens@.len()
            && !opens@[device_id as int]
            && (forall|j: int| 0 <= j < device_id ==> opens@[j])),
{
    if !subsystem_ok {
        return Err(Error::JoystickSubsystemUnavailable);
    }
    let mut i: usize = 0;
    while i < opens.len()
        invariant
            subsystem_ok,
            i <= opens@.len(),
            opens@.len() <= u32::MAX,
            forall|j: int| 0 <= j < i ==> opens@[j],
        decreases opens@.len() - i,
    {
        if !opens[i] {
            return Err(Error::JoystickOpenFailed { device_id: i as u32 });
        }
        i += 1;
    }
    Ok(opens.len() as u32)
}

/// Builds the initial lifecycle state of a freshly created window: the
/// configured flags and logical size, the drawable size the host just
/// queried, should-close and capture off, and both one-slot buffers empty.
pub fn finish_create(config: &WindowConfig, draw_width: u32, draw_height: u32) -> (w: WindowState)
    ensures
        w == (WindowState {
            should_close: false,
            automatic_close: config.automatic_close,
            exit_on_esc: config.exit_on_esc,
            is_capturing_cursor: false,
            title: config.title,
            width: config.width,
            height: config.height,
            draw_width,
            draw_height,
            pending_relative: None,
            ignore_relative: None,
        }),
{
    WindowState {
        should_close: false,
        automatic_close: config.automatic_close,
        exit_on_esc: config.exit_on_esc,
        is_capturing_cursor: false,
        title: config.title.clone(),
        width: config.width,
        height: config.height,
        draw_width,
        draw_height,
        pending_relative: None,
        ignore_relative: None,
    }
}

} // verus!
