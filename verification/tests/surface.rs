use wgpu::{CompositeAlphaMode, PresentMode, TextureFormat};
use window_render::surface::{choose_format, format_flags, preferred_index, FRAME_LATENCY};
use window_render::{SetupError, SurfaceCapabilities, SurfaceError};

fn capabilities(formats: Vec<TextureFormat>) -> SurfaceCapabilities {
    SurfaceCapabilities {
        formats,
        present_modes: vec![PresentMode::Mailbox, PresentMode::Fifo],
        alpha_modes: vec![CompositeAlphaMode::PreMultiplied, CompositeAlphaMode::Opaque],
    }
}

#[test]
fn flags_tell_srgb_formats_apart() {
    let formats = vec![
        TextureFormat::Bgra8Unorm,
        TextureFormat::Bgra8UnormSrgb,
        TextureFormat::Rgba16Float,
        TextureFormat::Rgba8UnormSrgb,
    ];
    assert_eq!(format_flags(&formats), vec![false, true, false, true]);
}

#[test]
fn flags_of_no_formats_are_empty() {
    assert_eq!(format_flags(&Vec::new()), Vec::<bool>::new());
}

#[test]
fn preferred_index_is_first_set_flag() {
    assert_eq!(preferred_index(&vec![false, false, true, true]), 2);
    assert_eq!(preferred_index(&vec![true, false]), 0);
    assert_eq!(preferred_index(&vec![false, true]), 1);
}

#[test]
fn preferred_index_is_zero_without_set_flag() {
    assert_eq!(preferred_index(&vec![false]), 0);
    assert_eq!(preferred_index(&vec![false, false, false]), 0);
}

#[test]
fn srgb_format_is_preferred() {
    let formats = vec![
        TextureFormat::Bgra8Unorm,
        TextureFormat::Rgba8Unorm,
        TextureFormat::Rgba8UnormSrgb,
        TextureFormat::Bgra8UnormSrgb,
    ];
    assert_eq!(choose_format(&formats), TextureFormat::Rgba8UnormSrgb);
}

#[test]
fn first_format_is_taken_without_srgb() {
    let formats = vec![TextureFormat::Rgba16Float, TextureFormat::Bgra8Unorm];
    assert_eq!(choose_format(&formats), TextureFormat::Rgba16Float);
}

#[test]
fn single_format_is_taken() {
    assert_eq!(choose_format(&vec![TextureFormat::Bgra8Unorm]), TextureFormat::Bgra8Unorm);
    assert_eq!(
        choose_format(&vec![TextureFormat::Bgra8UnormSrgb]),
        TextureFormat::Bgra8UnormSrgb
    );
}

#[test]
fn configuration_takes_first_modes_and_preferred_format() {
    let caps = capabilities(vec![TextureFormat::Bgra8Unorm, TextureFormat::Bgra8UnormSrgb]);
    let config = caps.configure(800, 500).unwrap();
    assert_eq!(config.format, TextureFormat::Bgra8UnormSrgb);
    assert_eq!(config.width, 800);
    assert_eq!(config.height, 500);
    assert_eq!(config.present_mode, PresentMode::Mailbox);
    assert_eq!(config.alpha_mode, CompositeAlphaMode::PreMultiplied);
    assert_eq!(config.desired_maximum_frame_latency, 2);
    assert_eq!(FRAME_LATENCY, 2);
}

#[test]
fn configuration_accepts_empty_extent() {
    let caps = capabilities(vec![TextureFormat::Bgra8Unorm]);
    let config = caps.configure(0, 0).unwrap();
    assert_eq!(config.width, 0);
    assert_eq!(config.height, 0);
}

#[test]
fn configuration_fails_without_formats() {
    let caps = capabilities(vec![]);
    assert_eq!(caps.configure(800, 500), Err(SetupError::NoSurfaceFormat));
}

#[test]
fn configuration_fails_without_present_modes() {
    let mut caps = capabilities(vec![TextureFormat::Bgra8Unorm]);
    caps.present_modes.clear();
    assert_eq!(caps.configure(800, 500), Err(SetupError::NoPresentMode));
}

#[test]
fn configuration_fails_without_alpha_modes() {
    let mut caps = capabilities(vec![TextureFormat::Bgra8Unorm]);
    caps.alpha_modes.clear();
    assert_eq!(caps.configure(800, 500), Err(SetupError::NoAlphaMode));
}

#[test]
fn missing_formats_are_reported_first() {
    let caps = SurfaceCapabilities { formats: vec![], present_modes: vec![], alpha_modes: vec![] };
    assert_eq!(caps.configure(1, 1), Err(SetupError::NoSurfaceFormat));
    let caps = SurfaceCapabilities {
        formats: vec![TextureFormat::Bgra8Unorm],
        present_modes: vec![],
        alpha_modes: vec![],
    };
    assert_eq!(caps.configure(1, 1), Err(SetupError::NoPresentMode));
}

#[test]
fn lost_and_outdated_are_recoverable() {
    assert!(SurfaceError::Lost.is_recoverable());
    assert!(SurfaceError::Outdated.is_recoverable());
}

#[test]
fn other_failures_are_not_recoverable() {
    assert!(!SurfaceError::Timeout.is_recoverable());
    assert!(!SurfaceError::OutOfMemory.is_recoverable());
    assert!(!SurfaceError::Other.is_recoverable());
}

#[test]
fn setup_errors_describe_themselves() {
    assert_eq!(
        SetupError::NoSurfaceFormat.message(),
        "the surface offers no texture format to the adapter"
    );
    assert_eq!(
        SetupError::NoPresentMode.message(),
        "the surface offers no presentation mode to the adapter"
    );
    assert_eq!(
        SetupError::NoAlphaMode.message(),
        "the surface offers no alpha mode to the adapter"
    );
}
