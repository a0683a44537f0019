use sdl2_window::config::{GraphicsApi, WindowConfig};
use sdl2_window::create::{
    create_advance, finish_create, gl_attributes, joystick_outcome, swap_interval, validate_api,
    CreateState, StepOutcome,
};
use sdl2_window::error::Error;

fn config() -> WindowConfig {
    WindowConfig {
        title: String::from("test"),
        width: 640,
        height: 480,
        fullscreen: false,
        resizable: true,
        decorated: true,
        transparent: false,
        vsync: false,
        srgb: true,
        samples: 4,
        api: GraphicsApi::opengl(3, 2),
        exit_on_esc: false,
        automatic_close: true,
        controllers: false,
    }
}

/// Drives the machine from `state`, answering every step with success,
/// until it reaches a terminal state.
fn run_all_ok(cfg: &WindowConfig, mut state: CreateState) -> CreateState {
    for _ in 0..16 {
        match state {
            CreateState::Finish | CreateState::Failed(_) => return state,
            _ => state = create_advance(cfg, state, StepOutcome::Success),
        }
    }
    panic!("creation machine did not terminate");
}

#[test]
fn creation_succeeds_when_every_step_succeeds() {
    let cfg = config();
    assert_eq!(run_all_ok(&cfg, CreateState::InitVideo), CreateState::Finish);
}

#[test]
fn multisample_build_failure_falls_back_once_and_succeeds() {
    let cfg = config();
    assert_eq!(cfg.samples, 4);

    // Walk to the multisampled build.
    let mut state = CreateState::InitVideo;
    state = create_advance(&cfg, state, StepOutcome::Success);
    assert_eq!(state, CreateState::ValidateApi);
    let api_check = match validate_api(&cfg.api) {
        Ok(()) => StepOutcome::Success,
        Err(e) => StepOutcome::Failure(e),
    };
    state = create_advance(&cfg, state, api_check);
    assert_eq!(state, CreateState::ApplyAttributes { multisampling: true });
    assert_eq!(gl_attributes(&cfg, true).multisample_buffers, 1);
    assert_eq!(gl_attributes(&cfg, true).multisample_samples, 4);
    state = create_advance(&cfg, state, StepOutcome::Success);
    assert_eq!(state, CreateState::BuildWindow { multisampled: true });

    // The multisampled build fails: exactly one retry, with samples 0.
    state = create_advance(&cfg, state, StepOutcome::Failure(Error::WindowCreationFailed));
    assert_eq!(state, CreateState::ApplyAttributes { multisampling: false });
    assert_eq!(gl_attributes(&cfg, false).multisample_buffers, 0);
    assert_eq!(gl_attributes(&cfg, false).multisample_samples, 0);
    state = create_advance(&cfg, state, StepOutcome::Success);
    assert_eq!(state, CreateState::BuildWindow { multisampled: false });

    // With the fallback build succeeding, creation completes.
    state = create_advance(&cfg, state, StepOutcome::Success);
    assert_eq!(state, CreateState::StartTextInput);
    assert_eq!(run_all_ok(&cfg, state), CreateState::Finish);
}

#[test]
fn second_build_failure_propagates_window_creation_failed() {
    let cfg = config();
    let state = CreateState::BuildWindow { multisampled: true };
    let state = create_advance(&cfg, state, StepOutcome::Failure(Error::WindowCreationFailed));
    assert_eq!(state, CreateState::ApplyAttributes { multisampling: false });
    let state = create_advance(&cfg, state, StepOutcome::Success);
    let state = create_advance(&cfg, state, StepOutcome::Failure(Error::WindowCreationFailed));
    assert_eq!(state, CreateState::Failed(Error::WindowCreationFailed));
}

#[test]
fn build_failure_without_samples_does_not_retry() {
    let mut cfg = config();
    cfg.samples = 0;
    let mut state = CreateState::InitVideo;
    state = create_advance(&cfg, state, StepOutcome::Success);
    state = create_advance(&cfg, state, StepOutcome::Success);
    assert_eq!(state, CreateState::ApplyAttributes { multisampling: false });
    state = create_advance(&cfg, state, StepOutcome::Success);
    assert_eq!(state, CreateState::BuildWindow { multisampled: false });
    state = create_advance(&cfg, state, StepOutcome::Failure(Error::WindowCreationFailed));
    assert_eq!(state, CreateState::Failed(Error::WindowCreationFailed));
}

#[test]
fn subsystem_init_failure_is_reported() {
    let cfg = config();
    let state = create_advance(
        &cfg,
        CreateState::InitVideo,
        StepOutcome::Failure(Error::SubsystemInitFailed),
    );
    assert_eq!(state, CreateState::Failed(Error::SubsystemInitFailed));
}

#[test]
fn unsupported_api_reports_both_names() {
    let api = GraphicsApi { name: String::from("Vulkan"), major: 1, minor: 2 };
    match validate_api(&api) {
        Err(Error::UnsupportedGraphicsApi { found, expected }) => {
            assert_eq!(found, "Vulkan");
            assert_eq!(expected, "OpenGL");
        }
        other => panic!("expected an unsupported-API error, got {:?}", other),
    }
    assert!(validate_api(&GraphicsApi::opengl(3, 2)).is_ok());
}

#[test]
fn context_creation_failure_is_reported() {
    let cfg = config();
    let state = create_advance(
        &cfg,
        CreateState::CreateContext,
        StepOutcome::Failure(Error::ContextCreationFailed),
    );
    assert_eq!(state, CreateState::Failed(Error::ContextCreationFailed));
}

#[test]
fn swap_interval_rejection_is_reported() {
    let cfg = config();
    let state = create_advance(
        &cfg,
        CreateState::SetSwapInterval,
        StepOutcome::Failure(Error::SwapIntervalRejected),
    );
    assert_eq!(state, CreateState::Failed(Error::SwapIntervalRejected));
}

#[test]
fn controllers_and_transparency_steps_are_taken_when_configured() {
    let mut cfg = config();
    cfg.controllers = true;
    cfg.transparent = true;
    let state = create_advance(&cfg, CreateState::SetSwapInterval, StepOutcome::Success);
    assert_eq!(state, CreateState::InitJoysticks);
    let state = create_advance(&cfg, state, StepOutcome::Success);
    assert_eq!(state, CreateState::SetTransparency);
    // Transparency is best-effort: even a failure moves on to Finish.
    let state = create_advance(
        &cfg,
        state,
        StepOutcome::Failure(Error::WindowCreationFailed),
    );
    assert_eq!(state, CreateState::Finish);
}

#[test]
fn joystick_failure_propagates_its_classified_error() {
    let cfg = config();
    let state = create_advance(
        &cfg,
        CreateState::InitJoysticks,
        StepOutcome::Failure(Error::JoystickOpenFailed { device_id: 2 }),
    );
    assert_eq!(state, CreateState::Failed(Error::JoystickOpenFailed { device_id: 2 }));
}

#[test]
fn joystick_outcome_classifies_results() {
    assert_eq!(
        joystick_outcome(false, &vec![]),
        Err(Error::JoystickSubsystemUnavailable)
    );
    assert_eq!(joystick_outcome(true, &vec![]), Ok(0));
    assert_eq!(joystick_outcome(true, &vec![true, true, true]), Ok(3));
    assert_eq!(
        joystick_outcome(true, &vec![true, false, true]),
        Err(Error::JoystickOpenFailed { device_id: 1 })
    );
}

#[test]
fn gl_attributes_request_32bit_color_and_stencil() {
    let cfg = config();
    let attrs = gl_attributes(&cfg, true);
    assert_eq!(attrs.red_bits, 8);
    assert_eq!(attrs.green_bits, 8);
    assert_eq!(attrs.blue_bits, 8);
    assert_eq!(attrs.alpha_bits, 8);
    assert_eq!(attrs.stencil_bits, 8);
    assert_eq!(attrs.major, 3);
    assert_eq!(attrs.minor, 2);
    assert!(attrs.srgb);
}

#[test]
fn core_profile_is_requested_from_3_2_on() {
    let mut cfg = config();
    cfg.api = GraphicsApi::opengl(3, 2);
    assert!(gl_attributes(&cfg, true).core_profile);
    cfg.api = GraphicsApi::opengl(4, 0);
    assert!(gl_attributes(&cfg, true).core_profile);
    cfg.api = GraphicsApi::opengl(3, 1);
    assert!(!gl_attributes(&cfg, true).core_profile);
    cfg.api = GraphicsApi::opengl(2, 1);
    assert!(!gl_attributes(&cfg, true).core_profile);
}

#[test]
fn swap_interval_follows_vsync() {
    assert_eq!(swap_interval(true), 1);
    assert_eq!(swap_interval(false), 0);
}

#[test]
fn default_config_matches_the_documented_attributes() {
    let cfg = WindowConfig::new(String::from("hello"), 320, 240);
    assert_eq!(cfg.title, "hello");
    assert_eq!((cfg.width, cfg.height), (320, 240));
    assert!(!cfg.fullscreen);
    assert!(cfg.resizable);
    assert!(cfg.decorated);
    assert!(!cfg.transparent);
    assert!(!cfg.vsync);
    assert!(cfg.srgb);
    assert_eq!(cfg.samples, 0);
    assert_eq!(cfg.api.name, "OpenGL");
    assert_eq!((cfg.api.major, cfg.api.minor), (3, 2));
    assert!(!cfg.exit_on_esc);
    assert!(cfg.automatic_close);
    assert!(!cfg.controllers);
}

#[test]
fn finished_window_is_ready() {
    let cfg = config();
    let w = finish_create(&cfg, 1280, 960);
    assert!(!w.should_close);
    assert!(!w.is_capturing_cursor);
    assert_eq!(w.pending_relative, None);
    assert_eq!(w.ignore_relative, None);
    assert_eq!(w.title, "test");
    assert_eq!(w.size(), (640, 480));
    assert_eq!(w.draw_size(), (1280, 960));
    assert_eq!(w.get_exit_on_esc(), cfg.exit_on_esc);
    assert_eq!(w.get_automatic_close(), cfg.automatic_close);
}
