use wgpu::{CompositeAlphaMode, PresentMode, TextureFormat};
use window_render::color::{ONE, TENTH};
use window_render::state::TRIANGLE_VERTICES;
use window_render::{
    Color, Command, CursorPosition, KeyCode, Pipeline, SetupError, State, SurfaceCapabilities,
    SurfaceError,
};

fn capabilities() -> SurfaceCapabilities {
    SurfaceCapabilities {
        formats: vec![TextureFormat::Bgra8Unorm, TextureFormat::Bgra8UnormSrgb],
        present_modes: vec![PresentMode::Fifo, PresentMode::Immediate],
        alpha_modes: vec![CompositeAlphaMode::Opaque],
    }
}

fn fresh() -> State {
    State::new(800, 500, &capabilities(), true).unwrap()
}

fn dark_grey() -> Color {
    Color { r: 0.1f64.to_bits(), g: 0.1f64.to_bits(), b: 0.1f64.to_bits(), a: 1.0f64.to_bits() }
}

#[test]
fn channel_patterns_are_a_tenth_and_one() {
    assert_eq!(f64::from_bits(TENTH), 0.1);
    assert_eq!(f64::from_bits(ONE), 1.0);
    assert_eq!(Color::initial(), dark_grey());
}

#[test]
fn replacing_red_and_green_keeps_blue_and_alpha() {
    let color = Color { r: 1, g: 2, b: 3, a: 4 };
    assert_eq!(color.replace_red_green(10, 20), Color { r: 10, g: 20, b: 3, a: 4 });
}

#[test]
fn new_state_is_not_configured() {
    let state = fresh();
    assert!(!state.is_surface_configured());
    assert_eq!(state.clear_color(), dark_grey());
    assert_eq!(state.mouse_position(), None);
    assert!(state.logging());
    let config = state.config();
    assert_eq!(config.format, TextureFormat::Bgra8UnormSrgb);
    assert_eq!(config.width, 800);
    assert_eq!(config.height, 500);
    assert_eq!(config.present_mode, PresentMode::Fifo);
    assert_eq!(config.alpha_mode, CompositeAlphaMode::Opaque);
    assert_eq!(config.desired_maximum_frame_latency, 2);
}

#[test]
fn new_state_remembers_quiet_logging() {
    let state = State::new(1, 1, &capabilities(), false).unwrap();
    assert!(!state.logging());
}

#[test]
fn new_state_takes_first_format_without_srgb() {
    let mut caps = capabilities();
    caps.formats = vec![TextureFormat::Rgba8Unorm, TextureFormat::Bgra8Unorm];
    let state = State::new(640, 480, &caps, false).unwrap();
    assert_eq!(state.config().format, TextureFormat::Rgba8Unorm);
}

#[test]
fn new_state_needs_a_format() {
    let mut caps = capabilities();
    caps.formats.clear();
    assert_eq!(State::new(800, 500, &caps, true).unwrap_err(), SetupError::NoSurfaceFormat);
}

#[test]
fn new_state_needs_a_present_mode() {
    let mut caps = capabilities();
    caps.present_modes.clear();
    assert_eq!(State::new(800, 500, &caps, true).unwrap_err(), SetupError::NoPresentMode);
}

#[test]
fn new_state_needs_an_alpha_mode() {
    let mut caps = capabilities();
    caps.alpha_modes.clear();
    assert_eq!(State::new(800, 500, &caps, true).unwrap_err(), SetupError::NoAlphaMode);
}

#[test]
fn resize_stores_positive_extent() {
    let mut state = fresh();
    let commands = state.resize(1024, 768);
    assert!(state.is_surface_configured());
    assert_eq!(state.config().width, 1024);
    assert_eq!(state.config().height, 768);
    assert_eq!(state.config().format, TextureFormat::Bgra8UnormSrgb);
    assert_eq!(state.config().present_mode, PresentMode::Fifo);
    assert_eq!(commands, vec![Command::ConfigureSurface { config: state.config() }]);
}

#[test]
fn resize_accepts_smallest_and_largest_extent() {
    let mut state = fresh();
    state.resize(1, 1);
    assert_eq!((state.config().width, state.config().height), (1, 1));
    state.resize(u32::MAX, u32::MAX);
    assert_eq!((state.config().width, state.config().height), (u32::MAX, u32::MAX));
    assert!(state.is_surface_configured());
}

#[test]
fn resize_ignores_zero_width() {
    let mut state = fresh();
    assert_eq!(state.resize(0, 300), vec![]);
    assert!(!state.is_surface_configured());
    assert_eq!((state.config().width, state.config().height), (800, 500));
}

#[test]
fn resize_ignores_zero_height() {
    let mut state = fresh();
    assert_eq!(state.resize(300, 0), vec![]);
    assert!(!state.is_surface_configured());
    assert_eq!((state.config().width, state.config().height), (800, 500));
}

#[test]
fn resize_to_nothing_keeps_configured_state() {
    let mut state = fresh();
    state.resize(320, 200);
    assert_eq!(state.resize(0, 0), vec![]);
    assert!(state.is_surface_configured());
    assert_eq!((state.config().width, state.config().height), (320, 200));
}

#[test]
fn render_before_configuration_only_requests_redraw() {
    let mut state = fresh();
    assert_eq!(state.render(), vec![Command::RequestRedraw]);
    assert!(!state.is_surface_configured());
}

#[test]
fn render_draws_triangle_on_clear_color() {
    let mut state = fresh();
    state.resize(800, 500);
    let commands = state.render();
    assert_eq!(
        commands,
        vec![
            Command::RequestRedraw,
            Command::DrawFrame {
                clear_color: dark_grey(),
                pipeline: Pipeline::Default,
                vertices: 3,
                instances: 1,
            },
        ]
    );
    assert_eq!(TRIANGLE_VERTICES, 3);
    assert_eq!((state.config().width, state.config().height), (800, 500));
}

#[test]
fn render_uses_current_clear_color() {
    let mut state = fresh();
    state.resize(800, 500);
    state.handle_mouse_moved(0.25f64.to_bits(), 0.5f64.to_bits());
    let commands = state.render();
    assert_eq!(
        commands[1],
        Command::DrawFrame {
            clear_color: Color {
                r: 0.25f64.to_bits(),
                g: 0.5f64.to_bits(),
                b: 0.1f64.to_bits(),
                a: 1.0f64.to_bits(),
            },
            pipeline: Pipeline::Default,
            vertices: 3,
            instances: 1,
        }
    );
}

#[test]
fn lost_surface_is_resized_once() {
    let mut state = fresh();
    state.resize(800, 500);
    let commands = state.render_failed(SurfaceError::Lost, 640, 480);
    assert_eq!((state.config().width, state.config().height), (640, 480));
    assert_eq!(commands, vec![Command::ConfigureSurface { config: state.config() }]);
}

#[test]
fn outdated_surface_is_resized_once() {
    let mut state = fresh();
    let commands = state.render_failed(SurfaceError::Outdated, 640, 480);
    assert!(state.is_surface_configured());
    assert_eq!((state.config().width, state.config().height), (640, 480));
    assert_eq!(commands, vec![Command::ConfigureSurface { config: state.config() }]);
}

#[test]
fn lost_surface_of_minimized_window_is_left_alone() {
    let mut state = fresh();
    state.resize(800, 500);
    assert_eq!(state.render_failed(SurfaceError::Lost, 0, 0), vec![]);
    assert_eq!((state.config().width, state.config().height), (800, 500));
}

#[test]
fn other_failures_are_reported() {
    for error in [SurfaceError::Timeout, SurfaceError::OutOfMemory, SurfaceError::Other] {
        let mut state = fresh();
        state.resize(800, 500);
        let commands = state.render_failed(error, 640, 480);
        assert_eq!(commands, vec![Command::ReportRenderError { error }]);
        assert_eq!((state.config().width, state.config().height), (800, 500));
    }
}

#[test]
fn escape_down_exits_once() {
    let mut state = fresh();
    assert_eq!(state.handle_key(KeyCode::Escape, true), vec![Command::Exit]);
}

#[test]
fn escape_up_does_not_exit() {
    let mut state = fresh();
    assert_eq!(state.handle_key(KeyCode::Escape, false), vec![]);
}

#[test]
fn other_keys_do_not_exit() {
    let mut state = fresh();
    assert_eq!(state.handle_key(KeyCode::Other, true), vec![]);
    assert_eq!(state.handle_key(KeyCode::Other, false), vec![]);
}

#[test]
fn keys_leave_state_alone() {
    let mut state = fresh();
    state.resize(10, 20);
    state.handle_key(KeyCode::Escape, true);
    assert!(state.is_surface_configured());
    assert_eq!((state.config().width, state.config().height), (10, 20));
    assert_eq!(state.clear_color(), dark_grey());
    assert_eq!(state.mouse_position(), None);
}

#[test]
fn cursor_tints_red_and_green() {
    let mut state = fresh();
    let red = (200.0f64 / 800.0).to_bits();
    let green = (125.0f64 / 500.0).to_bits();
    state.handle_mouse_moved(red, green);
    let color = state.clear_color();
    assert_eq!(f64::from_bits(color.r), 0.25);
    assert_eq!(f64::from_bits(color.g), 0.25);
    assert_eq!(f64::from_bits(color.b), 0.1);
    assert_eq!(f64::from_bits(color.a), 1.0);
    assert_eq!(state.mouse_position(), None);
    assert!(!state.is_surface_configured());
}

#[test]
fn cursor_position_is_recorded_raw() {
    let mut state = fresh();
    let position = CursorPosition { x: 12.5f64.to_bits(), y: 480.0f64.to_bits() };
    state.handle_mouse_moved2(position);
    assert_eq!(state.mouse_position(), Some(position));
    assert_eq!(state.clear_color(), dark_grey());
    assert!(!state.is_surface_configured());
    assert_eq!((state.config().width, state.config().height), (800, 500));
}

#[test]
fn latest_cursor_position_wins() {
    let mut state = fresh();
    state.handle_mouse_moved2(CursorPosition { x: 1, y: 2 });
    state.handle_mouse_moved2(CursorPosition { x: 3, y: 4 });
    assert_eq!(state.mouse_position(), Some(CursorPosition { x: 3, y: 4 }));
}

#[test]
fn update_changes_nothing() {
    let mut state = fresh();
    state.resize(30, 40);
    state.handle_mouse_moved2(CursorPosition { x: 5, y: 6 });
    state.update();
    assert!(state.is_surface_configured());
    assert_eq!((state.config().width, state.config().height), (30, 40));
    assert_eq!(state.clear_color(), dark_grey());
    assert_eq!(state.mouse_position(), Some(CursorPosition { x: 5, y: 6 }));
}
