use glcontext::backend::{Backend, BackendCall, ClientExtensions, ConfigCaps, CurrentTuple,
    DisplayExtensions, DisplayRequest};
use glcontext::egl;
use glcontext::select::build_descriptor;
use glcontext::{Api, ContextBuilder, CreationError, GlAttributes, GlRequest,
    PixelFormatRequirements, Robustness, VSyncMode};

fn plain_config(id: u64) -> ConfigCaps {
    ConfigCaps {
        id,
        slow: false,
        red_bits: 8,
        green_bits: 8,
        blue_bits: 8,
        alpha_bits: 8,
        depth_bits: 24,
        stencil_bits: 8,
        samples: 0,
        min_swap_interval: 0,
        max_swap_interval: 2,
        native_visual_id: 5,
    }
}

fn request_backend() -> Backend {
    Backend {
        client_extensions: ClientExtensions::default(),
        platform_display_loaded: true,
        platform_display_ext_loaded: true,
        display_handle: 1,
        init_ok: true,
        version: (1, 5),
        display_extensions: DisplayExtensions {
            khr_create_context: true,
            ext_create_context_robustness: true,
            khr_create_context_no_error: false,
            khr_surfaceless_context: true,
        },
        gl_bindable: true,
        es_bindable: true,
        configs: vec![plain_config(10)],
        choose_config_ok: true,
        max_gl_version: Some((4, 6)),
        max_es_version: Some((3, 2)),
        window_surface_ok: true,
        pbuffer_surface_ok: true,
        swap_with_damage_loaded: true,
        buffer_age_supported: true,
        buffer_age_value: 1,
        proc_address: 4096,
        context_lost: false,
        current: CurrentTuple::nothing(),
        next_handle: 100,
        log: Vec::new(),
    }
}

fn default_attributes() -> GlAttributes<u64> {
    GlAttributes {
        sharing: None,
        version: GlRequest::Latest,
        profile: None,
        debug: false,
        robustness: Robustness::NotRobust,
        vsync: VSyncMode::Off,
    }
}

fn first_of(ids: Vec<u64>, _display: u64) -> Result<u64, ()> {
    if ids.is_empty() {
        Err(())
    } else {
        Ok(ids[0])
    }
}

#[test]
fn x11_display_uses_the_platform_call_when_advertised() {
    let mut b = request_backend();
    b.client_extensions.khr_platform_x11 = true;
    let reqs = PixelFormatRequirements::default();
    let attrs = default_attributes();
    egl::Context::new(
        &mut b,
        &reqs,
        &attrs,
        egl::NativeDisplay::X11(Some(5)),
        egl::SurfaceType::Window,
        first_of,
    )
    .unwrap();
    assert_eq!(
        b.log[0],
        BackendCall::GetDisplay {
            request: DisplayRequest::Platform { platform: 0x31D5, native: 5 }
        }
    );
}

#[test]
fn x11_display_falls_back_to_the_legacy_call() {
    let mut b = request_backend();
    // The extension is advertised but the entry point never resolved:
    // acquisition must not go through the missing symbol.
    b.client_extensions.khr_platform_x11 = true;
    b.client_extensions.ext_platform_x11 = true;
    b.platform_display_loaded = false;
    b.platform_display_ext_loaded = false;
    let reqs = PixelFormatRequirements::default();
    let attrs = default_attributes();
    egl::Context::new(
        &mut b,
        &reqs,
        &attrs,
        egl::NativeDisplay::X11(None),
        egl::SurfaceType::Window,
        first_of,
    )
    .unwrap();
    assert_eq!(b.log[0], BackendCall::GetDisplay { request: DisplayRequest::Legacy { native: 0 } });
}

#[test]
fn device_display_uses_the_device_platform() {
    let mut b = request_backend();
    b.client_extensions.ext_platform_device = true;
    let reqs = PixelFormatRequirements::default();
    let attrs = default_attributes();
    egl::Context::new(
        &mut b,
        &reqs,
        &attrs,
        egl::NativeDisplay::Device(9),
        egl::SurfaceType::Window,
        first_of,
    )
    .unwrap();
    assert_eq!(
        b.log[0],
        BackendCall::GetDisplay {
            request: DisplayRequest::Platform { platform: 0x313F, native: 9 }
        }
    );
}

#[test]
fn wayland_legacy_fallback_keeps_the_callers_handle() {
    let mut b = request_backend();
    // No Wayland platform extension: acquisition falls back to the legacy
    // call, which must still receive the caller's display handle.
    let reqs = PixelFormatRequirements::default();
    let attrs = default_attributes();
    egl::Context::new(
        &mut b,
        &reqs,
        &attrs,
        egl::NativeDisplay::Wayland(Some(8)),
        egl::SurfaceType::Window,
        first_of,
    )
    .unwrap();
    assert_eq!(b.log[0], BackendCall::GetDisplay { request: DisplayRequest::Legacy { native: 8 } });
}

#[test]
fn latest_with_nothing_bindable_is_version_not_supported() {
    let mut b = request_backend();
    b.gl_bindable = false;
    b.es_bindable = false;
    let r = ContextBuilder::new().build_headless(&mut b, (16, 16));
    assert!(matches!(r, Err(CreationError::OpenGlVersionNotSupported)));
    assert!(!b.log.iter().any(|c| matches!(c, BackendCall::ChooseConfig)));
}

#[test]
fn embedded_fallback_tries_both_generations() {
    let mut b = request_backend();
    // Legacy backend, so the embedded API is bound without a pinned
    // version, and creation only accepts the original generation.
    b.version = (1, 3);
    b.display_extensions = DisplayExtensions {
        khr_create_context: false,
        ext_create_context_robustness: false,
        khr_create_context_no_error: false,
        khr_surfaceless_context: false,
    };
    b.max_es_version = Some((1, 1));
    let ctx = ContextBuilder::new().build_headless(&mut b, (16, 16)).unwrap();
    assert_eq!(ctx.get_api(), Api::OpenGlEs);
    let attempts: Vec<(u8, u8)> = b
        .log
        .iter()
        .filter_map(|c| match c {
            BackendCall::CreateContext { major, minor, .. } => Some((*major, *minor)),
            _ => None,
        })
        .collect();
    assert_eq!(attempts, vec![(2, 0), (1, 0)]);
}

#[test]
fn descriptor_on_a_pre_1_2_backend_is_minimal() {
    let mut reqs = PixelFormatRequirements::default();
    reqs.hardware_accelerated = None;
    reqs.color_bits = None;
    reqs.alpha_bits = None;
    reqs.depth_bits = None;
    reqs.stencil_bits = None;
    let descriptor =
        build_descriptor((1, 1), Api::OpenGlEs, None, &reqs, egl::SurfaceType::Surfaceless)
            .unwrap();
    // No colour-buffer-type and no renderable segment exist this early.
    assert_eq!(descriptor, vec![0x3033, 0, 0x3038]);
}

#[test]
fn descriptor_pins_the_native_visual_when_asked() {
    let mut reqs = PixelFormatRequirements::default();
    reqs.hardware_accelerated = None;
    reqs.color_bits = None;
    reqs.alpha_bits = None;
    reqs.depth_bits = None;
    reqs.stencil_bits = None;
    reqs.x11_visual_xid = Some(42);
    let descriptor =
        build_descriptor((1, 4), Api::OpenGl, None, &reqs, egl::SurfaceType::Window).unwrap();
    assert_eq!(
        descriptor,
        vec![0x303F, 0x308E, 0x3033, 0x0004, 0x3040, 0x0008, 0x3042, 0x0008, 0x302E, 42, 0x3038]
    );
}

#[test]
fn single_sample_request_resolves_to_no_multisampling() {
    // One sample per pixel is no multisampling: a configuration
    // reporting one sample satisfies a request for one, and the resolved
    // format reports multisampling as absent.
    let mut b = request_backend();
    let mut caps = plain_config(10);
    caps.samples = 1;
    b.configs = vec![caps];
    let builder = ContextBuilder::new().with_multisampling(1);
    let ctx = builder.build_headless(&mut b, (16, 16)).unwrap();
    assert_eq!(ctx.context.get_pixel_format().multisampling, None);
}

#[test]
fn append_builds_an_aggregate_error() {
    let first = CreationError::NoAvailablePixelFormat;
    let aggregate = first.append(CreationError::OpenGlVersionNotSupported);
    match aggregate {
        CreationError::CreationErrors(errors) => {
            assert_eq!(errors.len(), 2);
            assert!(matches!(*errors[0], CreationError::OpenGlVersionNotSupported));
            assert!(matches!(*errors[1], CreationError::NoAvailablePixelFormat));
        },
        other => panic!("expected an aggregate, got {:?}", other),
    }
}

#[test]
fn append_extends_an_existing_aggregate() {
    let aggregate = CreationError::NoAvailablePixelFormat
        .append(CreationError::OpenGlVersionNotSupported)
        .append(CreationError::RobustnessNotSupported);
    match aggregate {
        CreationError::CreationErrors(errors) => {
            assert_eq!(errors.len(), 3);
            assert!(matches!(*errors[2], CreationError::RobustnessNotSupported));
        },
        other => panic!("expected an aggregate, got {:?}", other),
    }
}

#[test]
fn callback_choosing_a_stranger_fails_selection() {
    let mut b = request_backend();
    let reqs = PixelFormatRequirements::default();
    let attrs = default_attributes();
    let r = egl::Context::new(
        &mut b,
        &reqs,
        &attrs,
        egl::NativeDisplay::Other(None),
        egl::SurfaceType::Window,
        |_ids: Vec<u64>, _display: u64| Ok(777),
    );
    assert!(matches!(r, Err(CreationError::NoAvailablePixelFormat)));
}

#[test]
fn callback_refusal_fails_selection() {
    let mut b = request_backend();
    let reqs = PixelFormatRequirements::default();
    let attrs = default_attributes();
    let r = egl::Context::new(
        &mut b,
        &reqs,
        &attrs,
        egl::NativeDisplay::Other(None),
        egl::SurfaceType::Window,
        |_ids: Vec<u64>, _display: u64| Err(()),
    );
    assert!(matches!(r, Err(CreationError::NoAvailablePixelFormat)));
}

#[test]
fn map_sharing_converts_the_sharing_handle() {
    let attrs = GlAttributes {
        sharing: Some(7u64),
        version: GlRequest::Latest,
        profile: None,
        debug: true,
        robustness: Robustness::NotRobust,
        vsync: VSyncMode::On,
    };
    let mapped: GlAttributes<String> = attrs.map_sharing(|h| format!("handle-{}", h));
    assert_eq!(mapped.sharing.as_deref(), Some("handle-7"));
    assert!(mapped.debug);
    assert!(matches!(mapped.vsync, VSyncMode::On));
}
