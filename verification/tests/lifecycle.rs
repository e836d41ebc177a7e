use glcontext::backend::{Backend, BackendCall, ClientExtensions, ConfigCaps, CurrentTuple,
    DisplayExtensions};
use glcontext::egl;
use glcontext::guard::MakeCurrentGuard;
use glcontext::{Api, ContextBuilder, ContextError, CreationError, GlRequest, PixelFormat,
    Robustness, SwapIntervalRange, VSyncError, VSyncMode};

fn lifecycle_config(id: u64) -> ConfigCaps {
    ConfigCaps {
        id,
        slow: false,
        red_bits: 8,
        green_bits: 8,
        blue_bits: 8,
        alpha_bits: 8,
        depth_bits: 24,
        stencil_bits: 8,
        samples: 0,
        min_swap_interval: 0,
        max_swap_interval: 2,
        native_visual_id: 33,
    }
}

fn lifecycle_backend() -> Backend {
    Backend {
        client_extensions: ClientExtensions::default(),
        platform_display_loaded: true,
        platform_display_ext_loaded: true,
        display_handle: 1,
        init_ok: true,
        version: (1, 5),
        display_extensions: DisplayExtensions {
            khr_create_context: true,
            ext_create_context_robustness: true,
            khr_create_context_no_error: false,
            khr_surfaceless_context: true,
        },
        gl_bindable: true,
        es_bindable: true,
        configs: vec![lifecycle_config(10)],
        choose_config_ok: true,
        max_gl_version: Some((4, 6)),
        max_es_version: Some((3, 2)),
        window_surface_ok: true,
        pbuffer_surface_ok: true,
        swap_with_damage_loaded: true,
        buffer_age_supported: true,
        buffer_age_value: 2,
        proc_address: 4096,
        context_lost: false,
        current: CurrentTuple::nothing(),
        next_handle: 100,
        log: Vec::new(),
    }
}

fn plain_pixel_format() -> PixelFormat {
    PixelFormat {
        hardware_accelerated: true,
        color_bits: 24,
        alpha_bits: 8,
        depth_bits: 24,
        stencil_bits: 8,
        stereoscopy: false,
        double_buffer: true,
        multisampling: None,
        srgb: false,
    }
}

fn raw_context(context: u64, surface: Option<u64>) -> egl::Context {
    egl::Context {
        display: 1,
        context,
        surface,
        api: Api::OpenGl,
        pixel_format: plain_pixel_format(),
        swap_interval_range: SwapIntervalRange { min: 0, max: 2 },
    }
}

#[test]
fn make_current_roundtrip_leaves_context_not_current() {
    let mut b = lifecycle_backend();
    let ctx = ContextBuilder::new().build_headless(&mut b, (16, 16)).unwrap();
    let pf_before = ctx.context.get_pixel_format();
    assert!(!ctx.is_current(&b));

    let ctx = ctx.make_current(&mut b).unwrap();
    assert!(ctx.is_current(&b));

    let ctx = ctx.make_not_current(&mut b).unwrap();
    assert!(!ctx.is_current(&b));
    assert_eq!(ctx.context.get_pixel_format(), pf_before);
}

#[test]
fn make_not_current_without_being_current_issues_no_call() {
    let mut b = lifecycle_backend();
    let ctx = ContextBuilder::new().build_headless(&mut b, (16, 16)).unwrap();
    let calls_before = b.log.len();
    let ctx = ctx.make_not_current(&mut b).unwrap();
    assert_eq!(b.log.len(), calls_before);
    assert!(!ctx.is_current(&b));
}

#[test]
fn make_current_reports_context_loss() {
    let mut b = lifecycle_backend();
    let ctx = ContextBuilder::new().build_headless(&mut b, (16, 16)).unwrap();
    b.context_lost = true;
    match ctx.make_current(&mut b) {
        Ok(_) => panic!("a lost context must not become current"),
        Err((ctx, e)) => {
            assert!(matches!(e, ContextError::ContextLost));
            assert!(!ctx.is_current(&b));
        },
    }
}

#[test]
fn guard_restores_the_previous_context() {
    let mut b = lifecycle_backend();
    let a = raw_context(50, Some(60));
    // Context A is current.
    b.current = CurrentTuple { display: 1, draw: 60, read: 60, context: 50 };

    // Activate context B's tuple through a guard.
    let guard = MakeCurrentGuard::new(&mut b, 1, 61, 61, 51).unwrap();
    assert!(!a.is_current(&b));
    guard.release(&mut b).unwrap();
    assert!(a.is_current(&b));
    assert_eq!(b.current, CurrentTuple { display: 1, draw: 60, read: 60, context: 50 });
}

#[test]
fn guard_skips_restoration_when_invalidated() {
    let mut b = lifecycle_backend();
    b.current = CurrentTuple { display: 1, draw: 60, read: 60, context: 50 };
    let mut guard = MakeCurrentGuard::new(&mut b, 1, 61, 61, 51).unwrap();
    guard.if_any_same_then_invalidate(60, 60, 50);
    let calls_before = b.log.len();
    guard.release(&mut b).unwrap();
    assert_eq!(b.log.len(), calls_before);
    assert_eq!(b.current, CurrentTuple { display: 1, draw: 61, read: 61, context: 51 });
}

#[test]
fn latest_on_legacy_backend_yields_embedded_api() {
    let mut b = lifecycle_backend();
    // A backend that predates extended creation: only the legacy
    // single-attribute creation path exists.
    b.version = (1, 3);
    b.display_extensions = DisplayExtensions {
        khr_create_context: false,
        ext_create_context_robustness: false,
        khr_create_context_no_error: false,
        khr_surfaceless_context: false,
    };
    let ctx = ContextBuilder::new()
        .with_gl(GlRequest::Latest)
        .build_headless(&mut b, (16, 16))
        .unwrap();
    assert_eq!(ctx.get_api(), Api::OpenGlEs);
}

#[test]
fn specific_desktop_version_is_pinned() {
    let mut b = lifecycle_backend();
    let ctx = ContextBuilder::new()
        .with_gl(GlRequest::Specific(Api::OpenGl, (3, 3)))
        .build_headless(&mut b, (16, 16))
        .unwrap();
    assert_eq!(ctx.get_api(), Api::OpenGl);
    assert!(b
        .log
        .iter()
        .any(|c| matches!(c, BackendCall::CreateContext { major: 3, minor: 3, .. })));
}

#[test]
fn gl_then_gles_falls_back_to_embedded() {
    let mut b = lifecycle_backend();
    b.gl_bindable = false;
    let ctx = ContextBuilder::new()
        .with_gl(GlRequest::GlThenGles { opengl_version: (4, 1), opengles_version: (3, 0) })
        .build_headless(&mut b, (16, 16))
        .unwrap();
    assert_eq!(ctx.get_api(), Api::OpenGlEs);
    assert!(b
        .log
        .iter()
        .any(|c| matches!(c, BackendCall::CreateContext { major: 3, minor: 0, .. })));
}

#[test]
fn version_negotiation_exhaustion_is_reported() {
    let mut b = lifecycle_backend();
    b.max_gl_version = None;
    b.max_es_version = None;
    let r = ContextBuilder::new().build_headless(&mut b, (16, 16));
    assert!(matches!(r, Err(CreationError::OpenGlVersionNotSupported)));
}

#[test]
fn desktop_fallback_tries_versions_in_descending_order() {
    let mut b = lifecycle_backend();
    // The backend accepts nothing above the legacy desktop version.
    b.max_gl_version = Some((1, 5));
    let ctx = ContextBuilder::new().build_headless(&mut b, (16, 16)).unwrap();
    assert_eq!(ctx.get_api(), Api::OpenGl);
    let attempts: Vec<(u8, u8)> = b
        .log
        .iter()
        .filter_map(|c| match c {
            BackendCall::CreateContext { major, minor, .. } => Some((*major, *minor)),
            _ => None,
        })
        .collect();
    assert_eq!(attempts, vec![(3, 2), (3, 1), (1, 0)]);
}

#[test]
fn required_robustness_fails_where_unsupported() {
    let mut b = lifecycle_backend();
    // Modern creation path without the robustness extension.
    b.version = (1, 4);
    b.display_extensions.ext_create_context_robustness = false;
    let r = ContextBuilder::new()
        .with_gl(GlRequest::Specific(Api::OpenGl, (3, 3)))
        .with_gl_robustness(Robustness::RobustLoseContextOnReset)
        .build_headless(&mut b, (16, 16));
    assert!(matches!(r, Err(CreationError::RobustnessNotSupported)));
}

#[test]
fn opportunistic_robustness_is_dropped_where_unsupported() {
    let mut b = lifecycle_backend();
    b.version = (1, 4);
    b.display_extensions.ext_create_context_robustness = false;
    let ctx = ContextBuilder::new()
        .with_gl(GlRequest::Specific(Api::OpenGl, (3, 3)))
        .with_gl_robustness(Robustness::TryRobustLoseContextOnReset)
        .build_headless(&mut b, (16, 16))
        .unwrap();
    assert_eq!(ctx.get_api(), Api::OpenGl);
}

#[test]
fn destroy_flushes_before_destroying_even_when_not_current() {
    let mut b = lifecycle_backend();
    let a = raw_context(50, Some(60));
    // A different context is current while A is destroyed.
    b.current = CurrentTuple { display: 1, draw: 99, read: 99, context: 40 };
    let before = b.log.len();
    a.destroy(&mut b).unwrap();
    assert_eq!(
        &b.log[before..],
        &[
            BackendCall::MakeCurrent { display: 1, draw: 60, read: 60, context: 50 },
            BackendCall::Finish,
            BackendCall::DestroyContext { display: 1, context: 50 },
            BackendCall::DestroySurface { display: 1, surface: 60 },
            BackendCall::MakeCurrent { display: 1, draw: 99, read: 99, context: 40 },
        ]
    );
}

#[test]
fn destroy_does_not_restore_the_destroyed_tuple() {
    let mut b = lifecycle_backend();
    let a = raw_context(50, Some(60));
    b.current = CurrentTuple { display: 1, draw: 60, read: 60, context: 50 };
    let before = b.log.len();
    a.destroy(&mut b).unwrap();
    assert_eq!(
        &b.log[before..],
        &[
            BackendCall::MakeCurrent { display: 1, draw: 60, read: 60, context: 50 },
            BackendCall::Finish,
            BackendCall::DestroyContext { display: 1, context: 50 },
            BackendCall::DestroySurface { display: 1, surface: 60 },
        ]
    );
}

#[test]
fn set_vsync_mode_restores_the_previous_tuple() {
    let mut b = lifecycle_backend();
    let a = raw_context(50, Some(60));
    b.current = CurrentTuple { display: 1, draw: 99, read: 99, context: 40 };
    a.set_vsync_mode(&mut b, VSyncMode::On).unwrap();
    assert_eq!(b.current, CurrentTuple { display: 1, draw: 99, read: 99, context: 40 });
    assert!(b.log.iter().any(|c| matches!(c, BackendCall::SwapInterval { interval: 1, .. })));
}

#[test]
fn set_vsync_mode_attempts_every_mode() {
    // The interval call is attempted whatever the configuration's range;
    // compatibility questions belong to supports_vsync_mode, and drivers
    // clamp an interval they cannot honour.
    let mut b = lifecycle_backend();
    let a = raw_context(50, Some(60));
    assert!(!a.supports_vsync_mode(VSyncMode::Adaptive));
    a.set_vsync_mode(&mut b, VSyncMode::Adaptive).unwrap();
    assert!(b.log.iter().any(|c| matches!(c, BackendCall::SwapInterval { interval: -1, .. })));
}

#[test]
fn set_vsync_mode_reports_context_loss() {
    let mut b = lifecycle_backend();
    b.context_lost = true;
    let a = raw_context(50, Some(60));
    let r = a.set_vsync_mode(&mut b, VSyncMode::On);
    assert!(matches!(r, Err(VSyncError::ContextError(ContextError::ContextLost))));
}

#[test]
fn required_robustness_fails_on_the_bare_legacy_path() {
    // A desktop request on a backend that has neither the modern creation
    // path nor the embedded legacy path: robustness cannot be expressed,
    // so a required policy must fail rather than be silently dropped.
    let mut b = lifecycle_backend();
    b.version = (1, 4);
    b.display_extensions = DisplayExtensions {
        khr_create_context: false,
        ext_create_context_robustness: false,
        khr_create_context_no_error: false,
        khr_surfaceless_context: false,
    };
    let r = ContextBuilder::new()
        .with_gl(GlRequest::Specific(Api::OpenGl, (2, 1)))
        .with_gl_robustness(Robustness::RobustNoResetNotification)
        .build_headless(&mut b, (16, 16));
    assert!(matches!(r, Err(CreationError::RobustnessNotSupported)));
    assert!(!b.log.iter().any(|c| matches!(c, BackendCall::CreateContext { .. })));
}

#[test]
fn swap_buffers_presents_and_reports_loss() {
    let mut b = lifecycle_backend();
    let a = raw_context(50, Some(60));
    a.swap_buffers(&mut b).unwrap();
    assert!(b.log.iter().any(|c| matches!(c, BackendCall::SwapBuffers { surface: 60 })));
    b.context_lost = true;
    assert!(matches!(a.swap_buffers(&mut b), Err(ContextError::ContextLost)));
}

#[test]
fn swap_with_damage_needs_the_entry_point() {
    let mut b = lifecycle_backend();
    b.swap_with_damage_loaded = false;
    let a = raw_context(50, Some(60));
    let rects = vec![glcontext::Rect { x: 0, y: 0, width: 4, height: 4 }];
    assert!(matches!(
        a.swap_buffers_with_damage(&mut b, &rects),
        Err(ContextError::FunctionUnavailable)
    ));
    assert!(!a.swap_buffers_with_damage_supported(&b));

    b.swap_with_damage_loaded = true;
    a.swap_buffers_with_damage(&mut b, &rects).unwrap();
    let damage = b
        .log
        .iter()
        .find_map(|c| match c {
            BackendCall::SwapBuffersWithDamage { surface: 60, rects, rect_count: 1 } => {
                Some(rects.clone())
            }
            _ => None,
        })
        .unwrap();
    assert_eq!(damage, vec![0, 0, 4, 4]);
}

#[test]
fn pbuffer_surfaces_carry_the_requested_size() {
    let mut b = lifecycle_backend();
    ContextBuilder::new().build_headless(&mut b, (640, 480)).unwrap();
    assert!(b.log.iter().any(|c| matches!(
        c,
        BackendCall::CreatePbufferSurface { config: 10, width: 640, height: 480 }
    )));
}

#[test]
fn buffer_age_reads_zero_when_unsupported() {
    let mut b = lifecycle_backend();
    let a = raw_context(50, Some(60));
    assert_eq!(a.buffer_age(&b), 2);
    b.buffer_age_supported = false;
    assert_eq!(a.buffer_age(&b), 0);
}

#[test]
fn surfaceless_contexts_need_the_extension() {
    let mut b = lifecycle_backend();
    b.display_extensions.khr_surfaceless_context = false;
    let proto = egl::Context::new(
        &mut b,
        &glcontext::PixelFormatRequirements::default(),
        &glcontext::GlAttributes {
            sharing: None,
            version: GlRequest::Latest,
            profile: None,
            debug: false,
            robustness: Robustness::NotRobust,
            vsync: VSyncMode::Off,
        },
        egl::NativeDisplay::Other(None),
        egl::SurfaceType::Surfaceless,
        |ids: Vec<u64>, _d: u64| if ids.is_empty() { Err(()) } else { Ok(ids[0]) },
    )
    .unwrap();
    let r = proto.finish_surfaceless(&mut b);
    assert!(matches!(r, Err(CreationError::NotSupported(_))));
}

#[test]
fn surfaceless_context_carries_no_surface() {
    let mut b = lifecycle_backend();
    let proto = egl::Context::new(
        &mut b,
        &glcontext::PixelFormatRequirements::default(),
        &glcontext::GlAttributes {
            sharing: None,
            version: GlRequest::Latest,
            profile: None,
            debug: false,
            robustness: Robustness::NotRobust,
            vsync: VSyncMode::Off,
        },
        egl::NativeDisplay::Other(None),
        egl::SurfaceType::Surfaceless,
        |ids: Vec<u64>, _d: u64| if ids.is_empty() { Err(()) } else { Ok(ids[0]) },
    )
    .unwrap();
    let ctx = proto.finish_surfaceless(&mut b).unwrap();
    assert!(ctx.surface.is_none());
    assert!(!b.log.iter().any(|c| matches!(c, BackendCall::CreatePbufferSurface { .. })));
}

#[test]
fn prototype_reports_the_native_visual() {
    let mut b = lifecycle_backend();
    let proto = egl::Context::new(
        &mut b,
        &glcontext::PixelFormatRequirements::default(),
        &glcontext::GlAttributes {
            sharing: None,
            version: GlRequest::Latest,
            profile: None,
            debug: false,
            robustness: Robustness::NotRobust,
            vsync: VSyncMode::Off,
        },
        egl::NativeDisplay::Other(None),
        egl::SurfaceType::Window,
        |ids: Vec<u64>, _d: u64| if ids.is_empty() { Err(()) } else { Ok(ids[0]) },
    )
    .unwrap();
    assert_eq!(proto.get_native_visual_id(&b), 33);
}

#[test]
fn shared_lists_carry_the_raw_handle() {
    let mut b = lifecycle_backend();
    let first = ContextBuilder::new().build_headless(&mut b, (16, 16)).unwrap();
    let handle = first.context.raw_handle();
    let builder = ContextBuilder::new().with_shared_lists(&first);
    assert_eq!(builder.gl_attr.sharing, Some(handle));
}

#[test]
fn treat_as_transitions_touch_no_backend_state() {
    let mut b = lifecycle_backend();
    let ctx = ContextBuilder::new().build_headless(&mut b, (16, 16)).unwrap();
    let calls = b.log.len();
    let ctx = ctx.treat_as_current();
    let ctx = ctx.treat_as_not_current();
    assert_eq!(b.log.len(), calls);
    assert!(!ctx.is_current(&b));
}

#[test]
fn proc_addresses_come_from_the_backend_lookup() {
    let mut b = lifecycle_backend();
    let ctx = ContextBuilder::new().build_headless(&mut b, (16, 16)).unwrap();
    let ctx = ctx.make_current(&mut b).unwrap();
    assert_eq!(ctx.get_proc_address(&b, "glFinish"), 4096);
}
