use lmage::surface::{
    is_zero_area, BootstrapError, State, SurfaceCapabilities, SurfaceConfiguration,
    MAXIMUM_FRAME_LATENCY,
};
use wgpu::{CompositeAlphaMode, PresentMode, TextureFormat};

fn capabilities() -> SurfaceCapabilities {
    SurfaceCapabilities {
        formats: vec![
            TextureFormat::Bgra8Unorm,
            TextureFormat::Bgra8UnormSrgb,
            TextureFormat::Rgba8UnormSrgb,
        ],
        present_modes: vec![PresentMode::Fifo, PresentMode::Mailbox],
        alpha_modes: vec![CompositeAlphaMode::Opaque, CompositeAlphaMode::Inherit],
    }
}

fn state_800_by_600() -> State {
    State::new(3, 800, 600, &capabilities()).unwrap()
}

#[test]
fn bootstrap_builds_the_initial_configuration() {
    let state = state_800_by_600();
    assert_eq!(state.window(), 3);
    assert_eq!(
        state.config,
        SurfaceConfiguration {
            width: 800,
            height: 600,
            format: TextureFormat::Bgra8UnormSrgb,
            present_mode: PresentMode::Fifo,
            alpha_mode: CompositeAlphaMode::Opaque,
            desired_maximum_frame_latency: 2,
        }
    );
    assert_eq!(MAXIMUM_FRAME_LATENCY, 2);
}

#[test]
fn bootstrap_falls_back_to_the_first_format() {
    let capabilities = SurfaceCapabilities {
        formats: vec![TextureFormat::Rgba16Float, TextureFormat::Bgra8Unorm],
        present_modes: vec![PresentMode::Immediate],
        alpha_modes: vec![CompositeAlphaMode::PreMultiplied],
    };
    let state = State::new(0, 1, 1, &capabilities).unwrap();
    assert_eq!(state.config.format, TextureFormat::Rgba16Float);
    assert_eq!(state.config.present_mode, PresentMode::Immediate);
    assert_eq!(state.config.alpha_mode, CompositeAlphaMode::PreMultiplied);
    assert_eq!((state.config.width, state.config.height), (1, 1));
}

#[test]
fn bootstrap_is_deterministic() {
    let first = State::new(9, 640, 480, &capabilities());
    let second = State::new(9, 640, 480, &capabilities());
    assert_eq!(first, second);
}

#[test]
fn bootstrap_fails_without_a_format() {
    let mut capabilities = capabilities();
    capabilities.formats.clear();
    assert_eq!(State::new(3, 800, 600, &capabilities), Err(BootstrapError::NoSurfaceFormat));
    capabilities.present_modes.clear();
    capabilities.alpha_modes.clear();
    assert_eq!(State::new(3, 0, 0, &capabilities), Err(BootstrapError::NoSurfaceFormat));
}

#[test]
fn bootstrap_fails_without_a_present_mode() {
    let mut capabilities = capabilities();
    capabilities.present_modes.clear();
    assert_eq!(State::new(3, 800, 600, &capabilities), Err(BootstrapError::NoPresentMode));
    capabilities.alpha_modes.clear();
    assert_eq!(State::new(3, 800, 0, &capabilities), Err(BootstrapError::NoPresentMode));
}

#[test]
fn bootstrap_fails_without_an_alpha_mode() {
    let mut capabilities = capabilities();
    capabilities.alpha_modes.clear();
    assert_eq!(State::new(3, 800, 600, &capabilities), Err(BootstrapError::NoAlphaMode));
    assert_eq!(State::new(3, 0, 600, &capabilities), Err(BootstrapError::NoAlphaMode));
}

#[test]
fn bootstrap_fails_on_a_window_without_area() {
    assert_eq!(State::new(3, 0, 600, &capabilities()), Err(BootstrapError::ZeroArea));
    assert_eq!(State::new(3, 800, 0, &capabilities()), Err(BootstrapError::ZeroArea));
    assert_eq!(State::new(3, 0, 0, &capabilities()), Err(BootstrapError::ZeroArea));
}

#[test]
fn zero_area_is_a_zero_in_either_dimension() {
    assert!(is_zero_area(0, 0));
    assert!(is_zero_area(0, 5));
    assert!(is_zero_area(5, 0));
    assert!(!is_zero_area(1, 1));
    assert!(!is_zero_area(u32::MAX, u32::MAX));
}

#[test]
fn reconfigure_takes_the_new_dimensions_and_keeps_the_rest() {
    let mut state = state_800_by_600();
    let applied = state.reconfigure(400, 300);
    let expected = SurfaceConfiguration {
        width: 400,
        height: 300,
        format: TextureFormat::Bgra8UnormSrgb,
        present_mode: PresentMode::Fifo,
        alpha_mode: CompositeAlphaMode::Opaque,
        desired_maximum_frame_latency: 2,
    };
    assert_eq!(applied, Some(expected));
    assert_eq!(state.config, expected);
    assert_eq!(state.window, 3);
}

#[test]
fn reconfigure_twice_equals_reconfigure_once() {
    let mut once = state_800_by_600();
    once.reconfigure(1024, 768);
    let mut twice = state_800_by_600();
    twice.reconfigure(1024, 768);
    let again = twice.reconfigure(1024, 768);
    assert_eq!(once, twice);
    assert_eq!(again, Some(once.config));
}

#[test]
fn reconfigure_ignores_zero_dimensions() {
    for (width, height) in [(0, 0), (0, 300), (400, 0)] {
        let mut state = state_800_by_600();
        assert_eq!(state.reconfigure(width, height), None);
        assert_eq!(state, state_800_by_600());
    }
}

#[test]
fn reconfigure_accepts_the_largest_dimensions() {
    let mut state = state_800_by_600();
    let applied = state.reconfigure(u32::MAX, 1).unwrap();
    assert_eq!((applied.width, applied.height), (u32::MAX, 1));
}
