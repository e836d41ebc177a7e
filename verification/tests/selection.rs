use glcontext::backend::{Backend, BackendCall, ClientExtensions, ConfigCaps, CurrentTuple,
    DisplayExtensions};
use glcontext::egl::SurfaceType;
use glcontext::select::build_descriptor;
use glcontext::{Api, ContextBuilder, CreationError, GlRequest, PixelFormatRequirements,
    ReleaseBehavior, VSyncMode};

fn config(id: u64, samples: u16, min_interval: i32, max_interval: i32) -> ConfigCaps {
    ConfigCaps {
        id,
        slow: false,
        red_bits: 8,
        green_bits: 8,
        blue_bits: 8,
        alpha_bits: 8,
        depth_bits: 24,
        stencil_bits: 8,
        samples,
        min_swap_interval: min_interval,
        max_swap_interval: max_interval,
        native_visual_id: 77,
    }
}

fn test_backend(configs: Vec<ConfigCaps>) -> Backend {
    Backend {
        client_extensions: ClientExtensions::default(),
        platform_display_loaded: true,
        platform_display_ext_loaded: true,
        display_handle: 1,
        init_ok: true,
        version: (1, 5),
        display_extensions: DisplayExtensions {
            khr_create_context: true,
            ext_create_context_robustness: true,
            khr_create_context_no_error: false,
            khr_surfaceless_context: true,
        },
        gl_bindable: true,
        es_bindable: true,
        configs,
        choose_config_ok: true,
        max_gl_version: Some((4, 6)),
        max_es_version: Some((3, 2)),
        window_surface_ok: true,
        pbuffer_surface_ok: true,
        swap_with_damage_loaded: true,
        buffer_age_supported: true,
        buffer_age_value: 2,
        proc_address: 4096,
        context_lost: false,
        current: CurrentTuple::nothing(),
        next_handle: 100,
        log: Vec::new(),
    }
}

fn default_reqs() -> PixelFormatRequirements {
    PixelFormatRequirements::default()
}

#[test]
fn descriptor_for_default_requirements() {
    let reqs = default_reqs();
    let descriptor =
        build_descriptor((1, 4), Api::OpenGl, None, &reqs, SurfaceType::Window).unwrap();
    let expected: Vec<i32> = vec![
        0x303F, 0x308E, // RGB colour buffer
        0x3033, 0x0004, // window surface
        0x3040, 0x0008, 0x3042, 0x0008, // renderable and conformant: desktop
        0x3027, 0x3038, // caveat: accelerated only
        0x3024, 8, 0x3023, 8, 0x3022, 8, // colour channels
        0x3021, 8, // alpha
        0x3025, 24, // depth
        0x3026, 8, // stencil
        0x3038, // terminator
    ];
    assert_eq!(descriptor, expected);
}

#[test]
fn descriptor_splits_color_bits_toward_later_channels() {
    let mut reqs = default_reqs();
    reqs.color_bits = Some(11);
    reqs.alpha_bits = None;
    reqs.depth_bits = None;
    reqs.stencil_bits = None;
    reqs.hardware_accelerated = None;
    let descriptor =
        build_descriptor((1, 4), Api::OpenGl, None, &reqs, SurfaceType::PBuffer).unwrap();
    let expected: Vec<i32> = vec![
        0x303F, 0x308E, 0x3033, 0x0001, 0x3040, 0x0008, 0x3042, 0x0008, 0x3024, 3, 0x3023, 4,
        0x3022, 4, 0x3038,
    ];
    assert_eq!(descriptor, expected);
}

#[test]
fn descriptor_rejects_non_power_of_two_multisampling() {
    let mut reqs = default_reqs();
    reqs.multisampling = Some(3);
    let r = build_descriptor((1, 4), Api::OpenGl, None, &reqs, SurfaceType::Window);
    assert!(matches!(r, Err(CreationError::NoAvailablePixelFormat)));
}

#[test]
fn descriptor_rejects_double_buffer_requirement() {
    let mut reqs = default_reqs();
    reqs.double_buffer = Some(true);
    let r = build_descriptor((1, 4), Api::OpenGl, None, &reqs, SurfaceType::Window);
    assert!(matches!(r, Err(CreationError::NoAvailablePixelFormat)));
}

#[test]
fn descriptor_rejects_stereoscopy() {
    let mut reqs = default_reqs();
    reqs.stereoscopy = true;
    let r = build_descriptor((1, 4), Api::OpenGl, None, &reqs, SurfaceType::Window);
    assert!(matches!(r, Err(CreationError::NoAvailablePixelFormat)));
}

#[test]
fn descriptor_rejects_release_without_flush() {
    let mut reqs = default_reqs();
    reqs.release_behavior = ReleaseBehavior::NoFlush;
    let r = build_descriptor((1, 4), Api::OpenGl, None, &reqs, SurfaceType::Window);
    assert!(matches!(r, Err(CreationError::NotSupported(_))));
}

#[test]
fn descriptor_rejects_desktop_on_old_backend() {
    let reqs = default_reqs();
    let r = build_descriptor((1, 2), Api::OpenGl, None, &reqs, SurfaceType::Window);
    assert!(matches!(r, Err(CreationError::NoAvailablePixelFormat)));
}

#[test]
fn invalid_multisampling_rejected_before_selection_touches_the_backend() {
    let mut b = test_backend(vec![config(10, 0, 0, 2)]);
    let mut builder = ContextBuilder::new();
    builder.pf_reqs.multisampling = Some(3);
    let r = builder.build_headless(&mut b, (16, 16));
    assert!(matches!(r, Err(CreationError::NoAvailablePixelFormat)));
    // Display acquisition, initialization and the API bind precede
    // selection; selection itself issued no call.
    assert!(!b.log.iter().any(|c| matches!(c, BackendCall::ChooseConfig)));
    assert!(!b.log.iter().any(|c| matches!(c, BackendCall::CreateContext { .. })));
}

#[test]
fn multisampling_resolved_exactly() {
    let mut b = test_backend(vec![config(10, 0, 0, 2), config(11, 4, 0, 2), config(12, 8, 0, 2)]);
    let mut builder = ContextBuilder::new();
    builder = builder.with_multisampling(4);
    let ctx = builder.build_headless(&mut b, (16, 16)).unwrap();
    assert_eq!(ctx.context.get_pixel_format().multisampling, Some(4));
}

#[test]
fn multisampling_never_rounded_up_or_down() {
    // Tables with only larger or only smaller sample counts than the
    // requested four must fail rather than round.
    let mut b = test_backend(vec![config(10, 2, 0, 2), config(11, 8, 0, 2)]);
    let builder = ContextBuilder::new().with_multisampling(4);
    let r = builder.build_headless(&mut b, (16, 16));
    assert!(matches!(r, Err(CreationError::NoAvailablePixelFormat)));
}

#[test]
fn multisampling_zero_forbids_multisampled_configs() {
    let mut b = test_backend(vec![config(11, 4, 0, 2), config(10, 0, 0, 2)]);
    let mut builder = ContextBuilder::new();
    builder.pf_reqs.multisampling = Some(0);
    let ctx = builder.build_headless(&mut b, (16, 16)).unwrap();
    assert_eq!(ctx.context.get_pixel_format().multisampling, None);
}

#[test]
fn selection_respects_requested_swap_interval() {
    // Only the second configuration supports an interval of two.
    let mut b = test_backend(vec![config(10, 0, 0, 1), config(11, 0, 0, 3)]);
    let builder = ContextBuilder::new().with_vsync(VSyncMode::SwapInterval(2));
    let ctx = builder.build_headless(&mut b, (16, 16)).unwrap();
    assert!(ctx.supports_vsync_mode(VSyncMode::SwapInterval(2)));
    assert!(ctx.supports_vsync_mode(VSyncMode::On));
    assert!(!ctx.supports_vsync_mode(VSyncMode::Adaptive));
}

#[test]
fn selection_fails_when_no_interval_fits() {
    let mut b = test_backend(vec![config(10, 0, 0, 1), config(11, 0, 0, 1)]);
    let builder = ContextBuilder::new().with_vsync(VSyncMode::SwapInterval(2));
    let r = builder.build_headless(&mut b, (16, 16));
    assert!(matches!(r, Err(CreationError::NoAvailablePixelFormat)));
}

#[test]
fn selection_fails_on_empty_configuration_table() {
    let mut b = test_backend(Vec::new());
    let r = ContextBuilder::new().build_headless(&mut b, (16, 16));
    assert!(matches!(r, Err(CreationError::NoAvailablePixelFormat)));
}

#[test]
fn pixel_format_reports_the_drivers_answers() {
    let mut caps = config(10, 0, 0, 2);
    caps.red_bits = 5;
    caps.green_bits = 6;
    caps.blue_bits = 5;
    caps.alpha_bits = 0;
    caps.depth_bits = 16;
    caps.stencil_bits = 0;
    caps.slow = true;
    let mut b = test_backend(vec![caps]);
    let mut builder = ContextBuilder::new();
    // The request asks for more than the driver's answer; the resolved
    // format must still report the real capabilities.
    builder.pf_reqs.hardware_accelerated = None;
    let ctx = builder.build_headless(&mut b, (16, 16)).unwrap();
    let pf = ctx.context.get_pixel_format();
    assert_eq!(pf.color_bits, 16);
    assert_eq!(pf.alpha_bits, 0);
    assert_eq!(pf.depth_bits, 16);
    assert_eq!(pf.stencil_bits, 0);
    assert!(!pf.hardware_accelerated);
    assert!(pf.double_buffer);
    assert!(!pf.stereoscopy);
}

#[test]
fn selection_fails_with_os_error_when_enumeration_fails() {
    let mut b = test_backend(vec![config(10, 0, 0, 2)]);
    b.choose_config_ok = false;
    let r = ContextBuilder::new().build_headless(&mut b, (16, 16));
    assert!(matches!(r, Err(CreationError::OsError(_))));
}

#[test]
fn creation_fails_without_display() {
    let mut b = test_backend(vec![config(10, 0, 0, 2)]);
    b.display_handle = 0;
    let r = ContextBuilder::new().build_headless(&mut b, (16, 16));
    assert!(matches!(r, Err(CreationError::OsError(_))));
}

#[test]
fn creation_fails_when_initialization_fails() {
    let mut b = test_backend(vec![config(10, 0, 0, 2)]);
    b.init_ok = false;
    let r = ContextBuilder::new().build_headless(&mut b, (16, 16));
    assert!(matches!(r, Err(CreationError::OsError(_))));
}

#[test]
fn to_gl_version_extracts_the_desktop_version() {
    assert_eq!(GlRequest::Specific(Api::OpenGl, (3, 3)).to_gl_version(), Some((3, 3)));
    assert_eq!(GlRequest::Specific(Api::OpenGlEs, (3, 0)).to_gl_version(), None);
    assert_eq!(
        GlRequest::GlThenGles { opengl_version: (4, 1), opengles_version: (3, 0) }.to_gl_version(),
        Some((4, 1))
    );
    assert_eq!(GlRequest::Latest.to_gl_version(), None);
}

#[test]
fn swap_intervals_of_the_vsync_modes() {
    assert_eq!(VSyncMode::Adaptive.get_swap_interval(), -1);
    assert_eq!(VSyncMode::Off.get_swap_interval(), 0);
    assert_eq!(VSyncMode::On.get_swap_interval(), 1);
    assert_eq!(VSyncMode::SwapInterval(3).get_swap_interval(), 3);
}

#[test]
fn builder_defaults_match_the_documented_requirements() {
    let builder = ContextBuilder::new();
    assert_eq!(builder.pf_reqs.hardware_accelerated, Some(true));
    assert_eq!(builder.pf_reqs.color_bits, Some(24));
    assert_eq!(builder.pf_reqs.alpha_bits, Some(8));
    assert_eq!(builder.pf_reqs.depth_bits, Some(24));
    assert_eq!(builder.pf_reqs.stencil_bits, Some(8));
    assert_eq!(builder.pf_reqs.double_buffer, None);
    assert_eq!(builder.pf_reqs.multisampling, None);
    assert!(!builder.pf_reqs.stereoscopy);
    assert!(builder.pf_reqs.srgb);
    assert!(matches!(builder.gl_attr.version, GlRequest::Latest));
    assert!(matches!(builder.gl_attr.vsync, VSyncMode::Off));
    assert!(builder.gl_attr.sharing.is_none());
}

#[test]
fn builder_setters_update_the_requirements() {
    let builder = ContextBuilder::new()
        .with_multisampling(8)
        .with_depth_buffer(16)
        .with_stencil_buffer(1)
        .with_pixel_format(30, 2)
        .with_stereoscopy()
        .with_srgb(false)
        .with_double_buffer(Some(false))
        .with_hardware_acceleration(None);
    assert_eq!(builder.pf_reqs.multisampling, Some(8));
    assert_eq!(builder.pf_reqs.depth_bits, Some(16));
    assert_eq!(builder.pf_reqs.stencil_bits, Some(1));
    assert_eq!(builder.pf_reqs.color_bits, Some(30));
    assert_eq!(builder.pf_reqs.alpha_bits, Some(2));
    assert!(builder.pf_reqs.stereoscopy);
    assert!(!builder.pf_reqs.srgb);
    assert_eq!(builder.pf_reqs.double_buffer, Some(false));
    assert_eq!(builder.pf_reqs.hardware_accelerated, None);
}

#[test]
fn builder_multisampling_zero_clears_the_requirement() {
    let builder = ContextBuilder::new().with_multisampling(4).with_multisampling(0);
    assert_eq!(builder.pf_reqs.multisampling, None);
}
