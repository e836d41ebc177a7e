//! The EGL-style context: display acquisition, prototype negotiation and
//! the finished context with its lifecycle operations.

use vstd::prelude::*;

use crate::backend::{
    Backend, BackendCall, ConfigCaps, CurrentTuple, DisplayRequest, DisplayExtensions, NO_CONTEXT,
    NO_DISPLAY, NO_SURFACE, spec_version_at_least, version_at_least,
};
use crate::guard::MakeCurrentGuard;
use crate::negotiate::{
    bind_and_get_api, create_context, spec_attempt_succeeds, spec_bind_plan,
    spec_robustness_refused,
};
use crate::select::{
    choose_fbconfig, spec_candidates, spec_interval_range, spec_pixel_format,
};
use crate::{Api, ContextError, CreationError, GlAttributes, OsFailure, PixelFormat,
    PixelFormatRequirements, Rect, Robustness, SwapIntervalRange, VSyncError, VSyncMode,
    spec_swap_interval};

verus! {

/// Platform identifier for X11 display acquisition.
pub const PLATFORM_X11: u32 = 0x31D5;
/// Platform identifier for GBM display acquisition.
pub const PLATFORM_GBM: u32 = 0x31D7;
/// Platform identifier for Wayland display acquisition.
pub const PLATFORM_WAYLAND: u32 = 0x31D8;
/// Platform identifier for Android display acquisition.
pub const PLATFORM_ANDROID: u32 = 0x3141;
/// Platform identifier for device-based display acquisition.
pub const PLATFORM_DEVICE: u32 = 0x313F;

/// The kind of surface a context will render to.
#[derive(Debug, Clone, Copy, PartialEq, Eq, Structural)]
pub enum SurfaceType {
    /// An offscreen buffer.
    PBuffer,
    /// A native window.
    Window,
    /// No surface at all.
    Surfaceless,
}

/// The native display a context is created against. A handle value stands
/// for the platform's opaque display pointer; `None` asks for the
/// platform's default display.
#[derive(Debug, Clone, Copy)]
pub enum NativeDisplay {
    /// An X11 display connection.
    X11(Option<u64>),
    /// A GBM device.
    Gbm(Option<u64>),
    /// A Wayland display connection.
    Wayland(Option<u64>),
    /// Android's one implicit display.
    Android,
    /// A device handle for display-less operation.
    Device(u64),
    /// No particular platform; `None` means the default display.
    Other(Option<u64>),
}

/// The native handle a request falls back to when the caller passed none:
/// the backend's default display.
pub const DEFAULT_DISPLAY: u64 = 0;

/// Which display acquisition call serves `nd` on a backend with client
/// extensions `ext`, given which platform-display entry points were
/// resolved. Platform-tagged acquisition is used only when both the
/// matching extension is advertised and the entry point was actually
/// resolved, since some backends advertise the extension without exporting
/// the symbol; everything else falls back to the legacy call.
pub open spec fn spec_display_request(
    nd: NativeDisplay,
    ext: crate::backend::ClientExtensions,
    platform_loaded: bool,
    platform_ext_loaded: bool,
) -> DisplayRequest {
    match nd {
        NativeDisplay::X11(display) => if ext.khr_platform_x11 && platform_loaded {
            DisplayRequest::Platform {
                platform: PLATFORM_X11,
                native: spec_native_or_default(display),
            }
        } else if ext.ext_platform_x11 && platform_ext_loaded {
            DisplayRequest::PlatformExt {
                platform: PLATFORM_X11,
                native: spec_native_or_default(display),
            }
        } else {
            DisplayRequest::Legacy { native: spec_native_or_default(display) }
        },
        NativeDisplay::Gbm(display) => if ext.khr_platform_gbm && platform_loaded {
            DisplayRequest::Platform {
                platform: PLATFORM_GBM,
                native: spec_native_or_default(display),
            }
        } else if ext.mesa_platform_gbm && platform_ext_loaded {
            DisplayRequest::PlatformExt {
                platform: PLATFORM_GBM,
                native: spec_native_or_default(display),
            }
        } else {
            DisplayRequest::Legacy { native: spec_native_or_default(display) }
        },
        NativeDisplay::Wayland(display) => if ext.khr_platform_wayland && platform_loaded {
            DisplayRequest::Platform {
                platform: PLATFORM_WAYLAND,
                native: spec_native_or_default(display),
            }
        } else if ext.ext_platform_wayland && platform_ext_loaded {
            DisplayRequest::PlatformExt {
                platform: PLATFORM_WAYLAND,
                native: spec_native_or_default(display),
            }
        } else {
            DisplayRequest::Legacy { native: spec_native_or_default(display) }
        },
        NativeDisplay::Android => if ext.khr_platform_android && platform_loaded {
            DisplayRequest::Platform { platform: PLATFORM_ANDROID, native: DEFAULT_DISPLAY }
        } else {
            DisplayRequest::Legacy { native: DEFAULT_DISPLAY }
        },
        NativeDisplay::Device(display) => if ext.ext_platform_device && platform_loaded {
            DisplayRequest::Platform { platform: PLATFORM_DEVICE, native: display }
        } else {
            DisplayRequest::Legacy { native: display }
        },
        NativeDisplay::Other(display) => DisplayRequest::Legacy {
            native: spec_native_or_default(display),
        },
    }
}

/// A caller-supplied native handle, or the default display.
pub open spec fn spec_native_or_default(display: Option<u64>) -> u64 {
    match display {
        Some(d) => d,
        None => DEFAULT_DISPLAY,
    }
}

/// Acquire the native display that serves `nd`, choosing the platform
/// acquisition call as the advertised client extensions and resolved entry
/// points allow. Returns the backend's display handle; the null display
/// means acquisition failed.
pub fn get_native_display(b: &mut Backend, nd: &NativeDisplay) -> (r: u64)
    ensures
        r == old(b).display_handle,
        final(b).only_log_changed(*old(b)),
        final(b).log@ == old(b).log@.push(
            BackendCall::GetDisplay {
                request: spec_display_request(
                    *nd,
                    old(b).client_extensions,
                    old(b).platform_display_loaded,
                    old(b).platform_display_ext_loaded,
                ),
            },
        ),
{
    let ext = b.client_extensions;
    let platform_loaded = b.platform_display_loaded;
    let platform_ext_loaded = b.platform_display_ext_loaded;
    let request = match nd {
        NativeDisplay::X11(display) => {
            if ext.khr_platform_x11 && platform_loaded {
                DisplayRequest::Platform {
                    platform: PLATFORM_X11,
                    native: native_or_default(*display),
                }
            } else if ext.ext_platform_x11 && platform_ext_loaded {
                DisplayRequest::PlatformExt {
                    platform: PLATFORM_X11,
                    native: native_or_default(*display),
                }
            } else {
                DisplayRequest::Legacy { native: native_or_default(*display) }
            }
        },
        NativeDisplay::Gbm(display) => {
            if ext.khr_platform_gbm && platform_loaded {
                DisplayRequest::Platform {
                    platform: PLATFORM_GBM,
                    native: native_or_default(*display),
                }
            } else if ext.mesa_platform_gbm && platform_ext_loaded {
                DisplayRequest::PlatformExt {
                    platform: PLATFORM_GBM,
                    native: native_or_default(*display),
                }
            } else {
                DisplayRequest::Legacy { native: native_or_default(*display) }
            }
        },
        NativeDisplay::Wayland(display) => {
            if ext.khr_platform_wayland && platform_loaded {
                DisplayRequest::Platform {
                    platform: PLATFORM_WAYLAND,
                    native: native_or_default(*display),
                }
            } else if ext.ext_platform_wayland && platform_ext_loaded {
                DisplayRequest::PlatformExt {
                    platform: PLATFORM_WAYLAND,
                    native: native_or_default(*display),
                }
            } else {
                DisplayRequest::Legacy { native: native_or_default(*display) }
            }
        },
        NativeDisplay::Android => {
            if ext.khr_platform_android && platform_loaded {
                DisplayRequest::Platform { platform: PLATFORM_ANDROID, native: DEFAULT_DISPLAY }
            } else {
                DisplayRequest::Legacy { native: DEFAULT_DISPLAY }
            }
        },
        NativeDisplay::Device(display) => {
            if ext.ext_platform_device && platform_loaded {
                DisplayRequest::Platform { platform: PLATFORM_DEVICE, native: *display }
            } else {
                DisplayRequest::Legacy { native: *display }
            }
        },
        NativeDisplay::Other(display) => DisplayRequest::Legacy {
            native: native_or_default(*display),
        },
    };
    b.get_display(request)
}

/// A caller-supplied native handle, or the default display.
fn native_or_default(display: Option<u64>) -> (r: u64)
    ensures
        r == spec_native_or_default(display),
{
    match display {
        Some(d) => d,
        None => DEFAULT_DISPLAY,
    }
}

/// Initialize the display and learn the backend's version, failing with an
/// operating-system error when initialization is refused.
pub fn get_egl_version(b: &mut Backend, display: u64) -> (r: Result<(i32, i32), CreationError>)
    ensures
        final(b).only_log_changed(*old(b)),
        final(b).log@ == old(b).log@.push(BackendCall::Initialize),
        match r {
            Ok(v) => old(b).init_ok && v == old(b).version,
            Err(e) => !old(b).init_ok && e == CreationError::OsError(OsFailure::Initialize),
        },
{
    match b.initialize(display) {
        Some(v) => Ok(v),
        None => Err(CreationError::OsError(OsFailure::Initialize)),
    }
}

/// The surface handle a context activates: its surface, or the null
/// surface for surfaceless contexts.
pub open spec fn spec_surface_or_none(surface: Option<u64>) -> u64 {
    match surface {
        Some(s) => s,
        None => NO_SURFACE,
    }
}

/// The tuple a guarded activation against `display` restores when `pre`
/// was current before: `pre` itself, addressed through `display` when
/// nothing was current.
pub open spec fn spec_restored_current(pre: CurrentTuple, display: u64) -> CurrentTuple {
    if pre.display != NO_DISPLAY {
        pre
    } else {
        CurrentTuple { display, draw: pre.draw, read: pre.read, context: pre.context }
    }
}

/// The ordered candidate versions the creation cascade attempts: the
/// pinned version when negotiation pinned one, else the stable embedded
/// generations for the embedded API, else the highest stable desktop
/// version, a recognized stable minimum, and the legacy fallback.
pub open spec fn spec_candidate_versions(api: Api, version: Option<(u8, u8)>) -> Seq<(u8, u8)> {
    match version {
        Some(v) => seq![v],
        None => if api == Api::OpenGlEs {
            seq![(2u8, 0u8), (1u8, 0u8)]
        } else {
            seq![(3u8, 2u8), (3u8, 1u8), (1u8, 0u8)]
        },
    }
}

/// Whether any candidate version can be created against the backend.
pub open spec fn spec_any_attempt_succeeds(
    b: Backend,
    egl_version: (i32, i32),
    ext: DisplayExtensions,
    api: Api,
    robustness: crate::Robustness,
    versions: Seq<(u8, u8)>,
) -> bool {
    exists|i: int|
        0 <= i < versions.len() && spec_attempt_succeeds(
            b,
            egl_version,
            ext,
            api,
            #[trigger] versions[i],
            robustness,
        )
}

/// The creation calls a candidate list produces: each candidate is
/// attempted in order, and the cascade stops at the first version the
/// backend accepts.
pub open spec fn spec_creation_attempts(
    b: Backend,
    api: Api,
    versions: Seq<(u8, u8)>,
    config: u64,
) -> Seq<BackendCall>
    decreases versions.len(),
{
    if versions.len() == 0 {
        seq![]
    } else {
        let head = seq![
            BackendCall::CreateContext { config, major: versions[0].0, minor: versions[0].1 },
        ];
        if b.supports_creation(api, versions[0]) {
            head
        } else {
            head + spec_creation_attempts(b, api, versions.skip(1), config)
        }
    }
}

/// The calls that set the requested swap interval on a freshly created
/// context: activate it, set the interval, and restore the previously
/// current tuple — cut short when the activation itself fails under
/// context loss.
pub open spec fn spec_interval_setup_calls(
    pre: Backend,
    display: u64,
    surface: u64,
    context: u64,
    vsync: VSyncMode,
) -> Seq<BackendCall> {
    let activate = seq![
        BackendCall::MakeCurrent { display, draw: surface, read: surface, context },
    ];
    if pre.context_lost {
        activate
    } else {
        activate + seq![
            BackendCall::SwapInterval { display, interval: spec_swap_interval(vsync) },
            BackendCall::MakeCurrent {
                display: spec_restored_current(pre.current, display).display,
                draw: pre.current.draw,
                read: pre.current.read,
                context: pre.current.context,
            },
        ]
    }
}

/// Creation attempts depend only on which versions the backend accepts,
/// so two backend states that accept the same versions produce the same
/// attempt sequence.
proof fn lemma_attempts_agree(
    b1: Backend,
    b2: Backend,
    api: Api,
    versions: Seq<(u8, u8)>,
    config: u64,
)
    requires
        b1.max_gl_version == b2.max_gl_version,
        b1.max_es_version == b2.max_es_version,
    ensures
        spec_creation_attempts(b1, api, versions, config) == spec_creation_attempts(
            b2,
            api,
            versions,
            config,
        ),
    decreases versions.len(),
{
    if versions.len() > 0 {
        lemma_attempts_agree(b1, b2, api, versions.skip(1), config);
    }
}

/// Whether any attempt succeeds likewise depends only on which versions
/// the backend accepts.
pub proof fn lemma_any_attempt_agree(
    b1: Backend,
    b2: Backend,
    egl_version: (i32, i32),
    ext: DisplayExtensions,
    api: Api,
    robustness: Robustness,
    versions: Seq<(u8, u8)>,
)
    requires
        b1.max_gl_version == b2.max_gl_version,
        b1.max_es_version == b2.max_es_version,
    ensures
        spec_any_attempt_succeeds(b1, egl_version, ext, api, robustness, versions)
            == spec_any_attempt_succeeds(b2, egl_version, ext, api, robustness, versions),
{
    if spec_any_attempt_succeeds(b1, egl_version, ext, api, robustness, versions) {
        let i = choose|i: int|
            0 <= i < versions.len() && spec_attempt_succeeds(
                b1,
                egl_version,
                ext,
                api,
                versions[i],
                robustness,
            );
        assert(spec_attempt_succeeds(b2, egl_version, ext, api, versions[i], robustness));
    }
    if spec_any_attempt_succeeds(b2, egl_version, ext, api, robustness, versions) {
        let i = choose|i: int|
            0 <= i < versions.len() && spec_attempt_succeeds(
                b2,
                egl_version,
                ext,
                api,
                versions[i],
                robustness,
            );
        assert(spec_attempt_succeeds(b1, egl_version, ext, api, versions[i], robustness));
    }
}

/// An attempt over a list succeeds exactly when the first candidate does
/// or one of the rest does.
proof fn lemma_any_attempt_cons(
    b: Backend,
    egl_version: (i32, i32),
    ext: DisplayExtensions,
    api: Api,
    robustness: Robustness,
    versions: Seq<(u8, u8)>,
)
    requires
        versions.len() > 0,
    ensures
        spec_any_attempt_succeeds(b, egl_version, ext, api, robustness, versions) == (
        spec_attempt_succeeds(b, egl_version, ext, api, versions[0], robustness)
            || spec_any_attempt_succeeds(b, egl_version, ext, api, robustness, versions.skip(1))),
{
    let rest = versions.skip(1);
    if spec_attempt_succeeds(b, egl_version, ext, api, versions[0], robustness) {
        assert(spec_any_attempt_succeeds(b, egl_version, ext, api, robustness, versions));
    }
    if spec_any_attempt_succeeds(b, egl_version, ext, api, robustness, rest) {
        let k = choose|k: int|
            0 <= k < rest.len() && spec_attempt_succeeds(
                b,
                egl_version,
                ext,
                api,
                rest[k],
                robustness,
            );
        assert(versions[k + 1] == rest[k]);
        assert(spec_any_attempt_succeeds(b, egl_version, ext, api, robustness, versions));
    }
    if spec_any_attempt_succeeds(b, egl_version, ext, api, robustness, versions) {
        let k = choose|k: int|
            0 <= k < versions.len() && spec_attempt_succeeds(
                b,
                egl_version,
                ext,
                api,
                versions[k],
                robustness,
            );
        if k != 0 {
            assert(rest[k - 1] == versions[k]);
            assert(spec_any_attempt_succeeds(b, egl_version, ext, api, robustness, rest));
        }
    }
}

/// Attempt two candidate versions in order, stopping at the first one the
/// backend accepts.
#[verifier::rlimit(100)]
#[verifier::spinoff_prover]
fn create_two_step_fallback(
    b: &mut Backend,
    display: u64,
    egl_version: (i32, i32),
    extensions: DisplayExtensions,
    api: Api,
    first: (u8, u8),
    second: (u8, u8),
    config_id: u64,
    gl_debug: bool,
    gl_robustness: Robustness,
    share: u64,
) -> (r: Result<u64, CreationError>)
    requires
        old(b).wf(),
        old(b).next_handle < u64::MAX,
    ensures
        final(b).wf(),
        final(b).only_log_and_handles_changed(*old(b)),
        spec_robustness_refused(egl_version, extensions, api, gl_robustness) ==> *final(b) == *old(
            b,
        ) && r == Err::<u64, CreationError>(CreationError::OpenGlVersionNotSupported),
        !spec_robustness_refused(egl_version, extensions, api, gl_robustness) ==> {
            &&& final(b).log@ == old(b).log@ + spec_creation_attempts(
                *old(b),
                api,
                seq![first, second],
                config_id,
            )
            &&& match r {
                Ok(h) => {
                    &&& spec_any_attempt_succeeds(
                        *old(b),
                        egl_version,
                        extensions,
                        api,
                        gl_robustness,
                        seq![first, second],
                    )
                    &&& h == old(b).next_handle
                    &&& h != NO_CONTEXT
                    &&& final(b).next_handle == old(b).next_handle + 1
                },
                Err(e) => {
                    &&& !spec_any_attempt_succeeds(
                        *old(b),
                        egl_version,
                        extensions,
                        api,
                        gl_robustness,
                        seq![first, second],
                    )
                    &&& e == CreationError::OpenGlVersionNotSupported
                    &&& final(b).next_handle == old(b).next_handle
                },
            }
        },
{
    let ghost versions: Seq<(u8, u8)> = seq![first, second];
    let ghost cc_first = BackendCall::CreateContext {
        config: config_id,
        major: first.0,
        minor: first.1,
    };
    let ghost cc_second = BackendCall::CreateContext {
        config: config_id,
        major: second.0,
        minor: second.1,
    };
    proof {
        assert(versions.skip(1) =~= seq![second]);
        assert(versions.skip(1).skip(1) =~= Seq::<(u8, u8)>::empty());
    }
    match create_context(
        b,
        display,
        egl_version,
        extensions,
        api,
        first,
        config_id,
        gl_debug,
        gl_robustness,
        share,
    ) {
        Ok(context) => {
            proof {
                assert(spec_creation_attempts(*old(b), api, versions, config_id)
                    =~= seq![cc_first]);
                assert(b.log@ =~= old(b).log@ + seq![cc_first]);
            }
            Ok(context)
        },
        Err(_) => {
            proof {
                if !spec_robustness_refused(egl_version, extensions, api, gl_robustness) {
                    assert(spec_creation_attempts(
                        *old(b),
                        api,
                        versions.skip(1).skip(1),
                        config_id,
                    ) =~= Seq::<BackendCall>::empty());
                    assert(spec_creation_attempts(*old(b), api, versions.skip(1), config_id)
                        =~= seq![cc_second]);
                    assert(spec_creation_attempts(*old(b), api, versions, config_id)
                        =~= seq![cc_first, cc_second]);
                }
            }
            let r = create_context(
                b,
                display,
                egl_version,
                extensions,
                api,
                second,
                config_id,
                gl_debug,
                gl_robustness,
                share,
            );
            proof {
                if !spec_robustness_refused(egl_version, extensions, api, gl_robustness) {
                    assert(b.log@ =~= old(b).log@ + seq![cc_first, cc_second]);
                }
            }
            match r {
                Ok(context) => Ok(context),
                Err(_) => Err(CreationError::OpenGlVersionNotSupported),
            }
        },
    }
}

/// Attempt the desktop versions in descending preference order: the
/// highest available, a recognized stable minimum, then the legacy
/// fallback.
#[verifier::rlimit(100)]
#[verifier::spinoff_prover]
fn create_desktop_fallback(
    b: &mut Backend,
    display: u64,
    egl_version: (i32, i32),
    extensions: DisplayExtensions,
    api: Api,
    config_id: u64,
    gl_debug: bool,
    gl_robustness: Robustness,
    share: u64,
) -> (r: Result<u64, CreationError>)
    requires
        old(b).wf(),
        old(b).next_handle < u64::MAX,
    ensures
        final(b).wf(),
        final(b).only_log_and_handles_changed(*old(b)),
        spec_robustness_refused(egl_version, extensions, api, gl_robustness) ==> *final(b) == *old(
            b,
        ) && r == Err::<u64, CreationError>(CreationError::OpenGlVersionNotSupported),
        !spec_robustness_refused(egl_version, extensions, api, gl_robustness) ==> {
            &&& final(b).log@ == old(b).log@ + spec_creation_attempts(
                *old(b),
                api,
                seq![(3u8, 2u8), (3u8, 1u8), (1u8, 0u8)],
                config_id,
            )
            &&& match r {
                Ok(h) => {
                    &&& spec_any_attempt_succeeds(
                        *old(b),
                        egl_version,
                        extensions,
                        api,
                        gl_robustness,
                        seq![(3u8, 2u8), (3u8, 1u8), (1u8, 0u8)],
                    )
                    &&& h == old(b).next_handle
                    &&& h != NO_CONTEXT
                    &&& final(b).next_handle == old(b).next_handle + 1
                },
                Err(e) => {
                    &&& !spec_any_attempt_succeeds(
                        *old(b),
                        egl_version,
                        extensions,
                        api,
                        gl_robustness,
                        seq![(3u8, 2u8), (3u8, 1u8), (1u8, 0u8)],
                    )
                    &&& e == CreationError::OpenGlVersionNotSupported
                    &&& final(b).next_handle == old(b).next_handle
                },
            }
        },
{
    let ghost versions: Seq<(u8, u8)> = seq![(3u8, 2u8), (3u8, 1u8), (1u8, 0u8)];
    let ghost tail: Seq<(u8, u8)> = seq![(3u8, 1u8), (1u8, 0u8)];
    let ghost cc32 = BackendCall::CreateContext { config: config_id, major: 3, minor: 2 };
    proof {
        assert(versions.skip(1) =~= tail);
    }
    match create_context(
        b,
        display,
        egl_version,
        extensions,
        api,
        (3, 2),
        config_id,
        gl_debug,
        gl_robustness,
        share,
    ) {
        Ok(context) => {
            proof {
                assert(spec_creation_attempts(*old(b), api, versions, config_id) =~= seq![cc32]);
                assert(b.log@ =~= old(b).log@ + seq![cc32]);
            }
            Ok(context)
        },
        Err(_) => {
            let ghost mid = *b;
            let r = create_two_step_fallback(
                b,
                display,
                egl_version,
                extensions,
                api,
                (3, 1),
                (1, 0),
                config_id,
                gl_debug,
                gl_robustness,
                share,
            );
            proof {
                if !spec_robustness_refused(egl_version, extensions, api, gl_robustness) {
                    lemma_attempts_agree(mid, *old(b), api, tail, config_id);
                    lemma_any_attempt_agree(
                        mid,
                        *old(b),
                        egl_version,
                        extensions,
                        api,
                        gl_robustness,
                        tail,
                    );
                    lemma_any_attempt_cons(
                        *old(b),
                        egl_version,
                        extensions,
                        api,
                        gl_robustness,
                        versions,
                    );
                    assert(spec_creation_attempts(*old(b), api, versions, config_id) =~= seq![cc32]
                        + spec_creation_attempts(*old(b), api, tail, config_id));
                    assert(b.log@ =~= old(b).log@ + spec_creation_attempts(
                        *old(b),
                        api,
                        versions,
                        config_id,
                    ));
                }
            }
            r
        },
    }
}

/// Attempt context creation for each candidate version in order, stopping
/// at the first version the backend accepts. A refused robustness policy
/// stops the cascade before any native call; once attempts are made,
/// their exact sequence is the one `spec_creation_attempts` lays down.
#[verifier::rlimit(100)]
#[verifier::spinoff_prover]
fn create_first_supported(
    b: &mut Backend,
    display: u64,
    egl_version: (i32, i32),
    extensions: DisplayExtensions,
    api: Api,
    version: Option<(u8, u8)>,
    config_id: u64,
    gl_debug: bool,
    gl_robustness: Robustness,
    share: u64,
) -> (r: Result<u64, CreationError>)
    requires
        old(b).wf(),
        old(b).next_handle < u64::MAX,
    ensures
        final(b).wf(),
        final(b).only_log_and_handles_changed(*old(b)),
        spec_robustness_refused(egl_version, extensions, api, gl_robustness) ==> *final(b) == *old(
            b,
        ) && r == Err::<u64, CreationError>(
            if version is Some {
                CreationError::RobustnessNotSupported
            } else {
                CreationError::OpenGlVersionNotSupported
            },
        ),
        !spec_robustness_refused(egl_version, extensions, api, gl_robustness) ==> {
            &&& final(b).log@ == old(b).log@ + spec_creation_attempts(
                *old(b),
                api,
                spec_candidate_versions(api, version),
                config_id,
            )
            &&& match r {
                Ok(h) => {
                    &&& spec_any_attempt_succeeds(
                        *old(b),
                        egl_version,
                        extensions,
                        api,
                        gl_robustness,
                        spec_candidate_versions(api, version),
                    )
                    &&& h == old(b).next_handle
                    &&& h != NO_CONTEXT
                    &&& final(b).next_handle == old(b).next_handle + 1
                },
                Err(e) => {
                    &&& !spec_any_attempt_succeeds(
                        *old(b),
                        egl_version,
                        extensions,
                        api,
                        gl_robustness,
                        spec_candidate_versions(api, version),
                    )
                    &&& e == CreationError::OpenGlVersionNotSupported
                    &&& final(b).next_handle == old(b).next_handle
                },
            }
        },
{
    let ghost versions = spec_candidate_versions(api, version);
    match version {
        Some(v) => {
            let ghost attempt = BackendCall::CreateContext {
                config: config_id,
                major: v.0,
                minor: v.1,
            };
            proof {
                assert(versions =~= seq![v]);
                assert(versions.skip(1) =~= Seq::<(u8, u8)>::empty());
                assert(spec_creation_attempts(*old(b), api, versions.skip(1), config_id)
                    =~= Seq::<BackendCall>::empty());
                assert(spec_creation_attempts(*old(b), api, versions, config_id) =~= seq![attempt]);
            }
            let r = create_context(
                b,
                display,
                egl_version,
                extensions,
                api,
                v,
                config_id,
                gl_debug,
                gl_robustness,
                share,
            );
            proof {
                if !spec_robustness_refused(egl_version, extensions, api, gl_robustness) {
                    assert(b.log@ =~= old(b).log@ + seq![attempt]);
                }
            }
            match r {
                Ok(context) => Ok(context),
                Err(e) => Err(e),
            }
        },
        None => {
            if api == Api::OpenGlEs {
                proof {
                    assert(versions =~= seq![(2u8, 0u8), (1u8, 0u8)]);
                }
                create_two_step_fallback(
                    b,
                    display,
                    egl_version,
                    extensions,
                    api,
                    (2, 0),
                    (1, 0),
                    config_id,
                    gl_debug,
                    gl_robustness,
                    share,
                )
            } else {
                proof {
                    assert(versions =~= seq![(3u8, 2u8), (3u8, 1u8), (1u8, 0u8)]);
                }
                create_desktop_fallback(
                    b,
                    display,
                    egl_version,
                    extensions,
                    api,
                    config_id,
                    gl_debug,
                    gl_robustness,
                    share,
                )
            }
        },
    }
}

/// The calls display acquisition, initialization and API binding issue:
/// each stage only reached when the one before it succeeded.
pub open spec fn spec_acquisition_calls(
    pre: Backend,
    request: crate::GlRequest,
    nd: NativeDisplay,
) -> Seq<BackendCall> {
    seq![
        BackendCall::GetDisplay {
            request: spec_display_request(
                nd,
                pre.client_extensions,
                pre.platform_display_loaded,
                pre.platform_display_ext_loaded,
            ),
        },
    ] + if pre.display_handle == NO_DISPLAY {
        Seq::<BackendCall>::empty()
    } else {
        seq![BackendCall::Initialize] + if !pre.init_ok {
            Seq::<BackendCall>::empty()
        } else {
            crate::negotiate::spec_bind_calls(request, pre.version, pre.gl_bindable)
        }
    }
}

/// The calls negotiation issues in all: acquisition and binding, then
/// configuration enumeration — the latter only when binding succeeded
/// and the descriptor was expressible.
pub open spec fn spec_negotiation_calls(
    pre: Backend,
    request: crate::GlRequest,
    nd: NativeDisplay,
    reqs: PixelFormatRequirements,
) -> Seq<BackendCall> {
    spec_acquisition_calls(pre, request, nd) + if pre.display_handle != NO_DISPLAY && pre.init_ok {
        match crate::negotiate::spec_bind_plan(request, pre.version, pre.gl_bindable, pre.es_bindable) {
            Err(_) => Seq::<BackendCall>::empty(),
            Ok(p) => if crate::select::spec_descriptor_error(pre.version, p.1, p.0, reqs) is None {
                seq![BackendCall::ChooseConfig]
            } else {
                Seq::<BackendCall>::empty()
            },
        }
    } else {
        Seq::<BackendCall>::empty()
    }
}

/// Acquire the display, initialize it, and bind the requested API:
/// everything negotiation does before configuration selection.
#[verifier::rlimit(100)]
#[verifier::spinoff_prover]
fn acquire_and_bind(
    b: &mut Backend,
    request: crate::GlRequest,
    native_display: &NativeDisplay,
) -> (r: Result<(u64, (i32, i32), DisplayExtensions, Option<(u8, u8)>, Api), CreationError>)
    ensures
        final(b).only_log_changed(*old(b)),
        final(b).log@ == old(b).log@ + spec_acquisition_calls(*old(b), request, *native_display),
        old(b).display_handle == NO_DISPLAY ==> (r matches Err(e) && e == CreationError::OsError(
            OsFailure::GetDisplay,
        )),
        old(b).display_handle != NO_DISPLAY && !old(b).init_ok ==> (r matches Err(e) && e
            == CreationError::OsError(OsFailure::Initialize)),
        old(b).display_handle != NO_DISPLAY && old(b).init_ok ==> r == match spec_bind_plan(
            request,
            old(b).version,
            old(b).gl_bindable,
            old(b).es_bindable,
        ) {
            Ok(p) => Ok::<(u64, (i32, i32), DisplayExtensions, Option<(u8, u8)>, Api), CreationError>(
                (
                    old(b).display_handle,
                    old(b).version,
                    if spec_version_at_least(old(b).version, 1, 2) {
                        old(b).display_extensions
                    } else {
                        DisplayExtensions {
                            khr_create_context: false,
                            ext_create_context_robustness: false,
                            khr_create_context_no_error: false,
                            khr_surfaceless_context: false,
                        }
                    },
                    p.0,
                    p.1,
                ),
            ),
            Err(e) => Err::<(u64, (i32, i32), DisplayExtensions, Option<(u8, u8)>, Api), CreationError>(
                e,
            ),
        },
{
    let ghost calls = spec_acquisition_calls(*old(b), request, *native_display);

    // Calling the display acquisition entry point appropriate to the
    // native display's platform.
    let display = get_native_display(b, native_display);

    if display == NO_DISPLAY {
        proof {
            assert(b.log@ =~= old(b).log@ + calls);
        }
        return Err(CreationError::OsError(OsFailure::GetDisplay));
    }

    let egl_version = match get_egl_version(b, display) {
        Ok(v) => v,
        Err(e) => {
            proof {
                assert(b.log@ =~= old(b).log@ + calls);
            }
            return Err(e);
        },
    };

    // The extensions the initialized display advertises differ from the
    // client extensions consulted before initialization.
    let extensions = if version_at_least(egl_version, 1, 2) {
        b.display_extensions
    } else {
        DisplayExtensions::none()
    };

    // Binding the right API and pinning the version, if one is carried by
    // the request.
    match bind_and_get_api(b, request, egl_version) {
        Ok((version, api)) => {
            proof {
                assert(b.log@ =~= old(b).log@ + calls);
            }
            Ok((display, egl_version, extensions, version, api))
        },
        Err(e) => {
            proof {
                assert(b.log@ =~= old(b).log@ + calls);
            }
            Err(e)
        },
    }
}

/// A finished EGL-style context: the negotiated handles and capabilities.
/// The display handle is never released: the backend does not count
/// references to displays, and releasing it would invalidate displays
/// still legitimately held elsewhere in the process.
#[derive(Debug, Clone)]
pub struct Context {
    /// The display the context was created against.
    pub display: u64,
    /// The native context handle; immutable for the context's lifetime.
    pub context: u64,
    /// The attached surface; `None` for surfaceless contexts.
    pub surface: Option<u64>,
    /// The API the context was created for.
    pub api: Api,
    /// The resolved capabilities of the chosen configuration.
    pub pixel_format: PixelFormat,
    /// The swap intervals the chosen configuration supports.
    pub swap_interval_range: SwapIntervalRange,
}

impl Context {
    /// The handles are real and the interval bounds are ordered.
    pub open spec fn wf(&self) -> bool {
        &&& self.context != NO_CONTEXT
        &&& self.display != NO_DISPLAY
        &&& self.swap_interval_range.min <= self.swap_interval_range.max
    }

    /// Whether this context is the one current on the thread.
    pub open spec fn spec_is_current(&self, b: Backend) -> bool {
        b.current.context == self.context
    }

    /// Whether a release call must be issued: the context, or its
    /// surface, is part of the current tuple.
    pub open spec fn spec_is_active(&self, b: Backend) -> bool {
        (self.surface matches Some(s) && (b.current.draw == s || b.current.read == s))
            || b.current.context == self.context
    }

    /// Map a make-current answer to the protocol's outcome: `None` means
    /// no call was needed, a failed call means the context was lost.
    fn check_make_current(&self, ret: Option<bool>) -> (r: Result<(), ContextError>)
        ensures
            r == match ret {
                Some(false) => Err::<(), ContextError>(ContextError::ContextLost),
                _ => Ok::<(), ContextError>(()),
            },
    {
        match ret {
            Some(false) => Err(ContextError::ContextLost),
            _ => Ok(()),
        }
    }

    /// Make this context, with its surface, current on the thread.
    pub fn make_current(&self, b: &mut Backend) -> (r: Result<(), ContextError>)
        ensures
            final(b).log@ == old(b).log@.push(
                BackendCall::MakeCurrent {
                    display: self.display,
                    draw: spec_surface_or_none(self.surface),
                    read: spec_surface_or_none(self.surface),
                    context: self.context,
                },
            ),
            !old(b).context_lost ==> r is Ok && final(b).current == (CurrentTuple {
                display: self.display,
                draw: spec_surface_or_none(self.surface),
                read: spec_surface_or_none(self.surface),
                context: self.context,
            }) && final(b).only_log_and_current_changed(*old(b)),
            old(b).context_lost ==> r == Err::<(), ContextError>(ContextError::ContextLost)
                && final(b).only_log_changed(*old(b)),
    {
        let surface = match self.surface {
            Some(s) => s,
            None => NO_SURFACE,
        };
        let ret = b.make_current(self.display, surface, surface, self.context);
        self.check_make_current(Some(ret))
    }

    /// Release this context from the thread, if it or its surface is part
    /// of the current tuple; a context that is not current needs, and
    /// gets, no release call.
    pub fn make_not_current(&self, b: &mut Backend) -> (r: Result<(), ContextError>)
        ensures
            !self.spec_is_active(*old(b)) ==> r is Ok && *final(b) == *old(b),
            self.spec_is_active(*old(b)) ==> final(b).log@ == old(b).log@.push(
                BackendCall::MakeCurrent {
                    display: self.display,
                    draw: NO_SURFACE,
                    read: NO_SURFACE,
                    context: NO_CONTEXT,
                },
            ),
            self.spec_is_active(*old(b)) && !old(b).context_lost ==> r is Ok
                && final(b).current == (CurrentTuple {
                display: self.display,
                draw: NO_SURFACE,
                read: NO_SURFACE,
                context: NO_CONTEXT,
            }) && final(b).only_log_and_current_changed(*old(b)),
            self.spec_is_active(*old(b)) && old(b).context_lost ==> r == Err::<
                (),
                ContextError,
            >(ContextError::ContextLost) && final(b).only_log_changed(*old(b)),
    {
        let surface_eq = match self.surface {
            Some(s) => b.get_current_draw_surface() == s || b.get_current_read_surface() == s,
            None => false,
        };

        if surface_eq || b.get_current_context() == self.context {
            let ret = b.make_current(self.display, NO_SURFACE, NO_SURFACE, NO_CONTEXT);
            self.check_make_current(Some(ret))
        } else {
            self.check_make_current(None)
        }
    }

    /// Whether this context is the one current on the thread. A cheap
    /// query, usable without a lifecycle transition.
    pub fn is_current(&self, b: &Backend) -> (r: bool)
        ensures
            r == self.spec_is_current(*b),
    {
        b.get_current_context() == self.context
    }

    /// The API the context was created for.
    pub fn get_api(&self) -> (r: Api)
        ensures
            r == self.api,
    {
        self.api
    }

    /// Whether the chosen configuration supports the swap interval this
    /// vsync mode asks for.
    pub fn supports_vsync_mode(&self, mode: VSyncMode) -> (r: bool)
        ensures
            r == (self.swap_interval_range.min <= spec_swap_interval(mode)
                && spec_swap_interval(mode) <= self.swap_interval_range.max),
    {
        let swap_interval = mode.get_swap_interval();
        swap_interval >= self.swap_interval_range.min && swap_interval
            <= self.swap_interval_range.max
    }

    /// Change the vsync mode, activating the context only for the
    /// duration of the interval call and restoring whatever was current
    /// before. The call is attempted for every mode; whether the chosen
    /// configuration can honour a mode is answered by
    /// `supports_vsync_mode`, and drivers clamp an interval they cannot
    /// honour.
    pub fn set_vsync_mode(&self, b: &mut Backend, mode: VSyncMode) -> (r: Result<(), VSyncError>)
        ensures
            old(b).context_lost ==> r == Err::<(), VSyncError>(
                VSyncError::ContextError(ContextError::ContextLost),
            ) && final(b).only_log_changed(*old(b)) && final(b).log@ == old(b).log@.push(
                BackendCall::MakeCurrent {
                    display: self.display,
                    draw: spec_surface_or_none(self.surface),
                    read: spec_surface_or_none(self.surface),
                    context: self.context,
                },
            ),
            !old(b).context_lost ==> r is Ok && final(b).current == spec_restored_current(
                old(b).current,
                self.display,
            ) && final(b).only_log_and_current_changed(*old(b)) && final(b).log@ == old(
                b,
            ).log@.push(
                BackendCall::MakeCurrent {
                    display: self.display,
                    draw: spec_surface_or_none(self.surface),
                    read: spec_surface_or_none(self.surface),
                    context: self.context,
                },
            ).push(
                BackendCall::SwapInterval {
                    display: self.display,
                    interval: spec_swap_interval(mode),
                },
            ).push(
                BackendCall::MakeCurrent {
                    display: spec_restored_current(old(b).current, self.display).display,
                    draw: old(b).current.draw,
                    read: old(b).current.read,
                    context: old(b).current.context,
                },
            ),
    {
        let surface = match self.surface {
            Some(s) => s,
            None => NO_SURFACE,
        };
        let guard = match MakeCurrentGuard::new(b, self.display, surface, surface, self.context) {
            Ok(guard) => guard,
            Err(e) => {
                return Err(VSyncError::ContextError(e));
            },
        };
        b.swap_interval(self.display, mode.get_swap_interval());
        match guard.release(b) {
            Ok(()) => Ok(()),
            Err(e) => Err(VSyncError::ContextError(e)),
        }
    }

    /// The raw native context handle.
    pub fn raw_handle(&self) -> (r: u64)
        ensures
            r == self.context,
    {
        self.context
    }

    /// The raw native display handle.
    pub fn get_egl_display(&self) -> (r: u64)
        ensures
            r == self.display,
    {
        self.display
    }

    /// Look up an entry point by name through the backend's generic
    /// lookup.
    pub fn get_proc_address(&self, b: &Backend, addr: &str) -> (r: u64)
        ensures
            r == b.proc_address,
    {
        b.get_proc_address(addr)
    }

    /// Present the back buffer of the context's surface. A surface that
    /// was torn down reads as context loss without a native call.
    pub fn swap_buffers(&self, b: &mut Backend) -> (r: Result<(), ContextError>)
        requires
            self.surface is Some,
        ensures
            spec_surface_or_none(self.surface) == NO_SURFACE ==> r == Err::<(), ContextError>(
                ContextError::ContextLost,
            ) && *final(b) == *old(b),
            spec_surface_or_none(self.surface) != NO_SURFACE ==> {
                &&& final(b).only_log_changed(*old(b))
                &&& final(b).log@ == old(b).log@.push(
                    BackendCall::SwapBuffers { surface: spec_surface_or_none(self.surface) },
                )
                &&& r == if old(b).context_lost {
                    Err::<(), ContextError>(ContextError::ContextLost)
                } else {
                    Ok::<(), ContextError>(())
                }
            },
    {
        let surface = match self.surface {
            Some(s) => s,
            None => NO_SURFACE,
        };
        if surface == NO_SURFACE {
            return Err(ContextError::ContextLost);
        }
        if b.swap_buffers(self.display, surface) {
            Ok(())
        } else {
            Err(ContextError::ContextLost)
        }
    }

    /// Whether the backend resolved the damage-aware swap entry point.
    pub fn swap_buffers_with_damage_supported(&self, b: &Backend) -> (r: bool)
        ensures
            r == b.swap_with_damage_loaded,
    {
        b.swap_buffers_with_damage_supported()
    }

    /// Present the back buffer, submitting the damaged rectangles, when
    /// the backend resolved the damage-aware entry point.
    pub fn swap_buffers_with_damage(&self, b: &mut Backend, rects: &Vec<Rect>) -> (r: Result<
        (),
        ContextError,
    >)
        requires
            self.surface is Some,
            forall|i: int|
                0 <= i < rects@.len() ==> (#[trigger] rects@[i]).x <= 0x7fff_ffff && rects@[i].y
                    <= 0x7fff_ffff && rects@[i].width <= 0x7fff_ffff && rects@[i].height
                    <= 0x7fff_ffff,
        ensures
            !old(b).swap_with_damage_loaded ==> r == Err::<(), ContextError>(
                ContextError::FunctionUnavailable,
            ) && *final(b) == *old(b),
            old(b).swap_with_damage_loaded && spec_surface_or_none(self.surface) == NO_SURFACE
                ==> r == Err::<(), ContextError>(ContextError::ContextLost) && *final(b) == *old(b),
            old(b).swap_with_damage_loaded && spec_surface_or_none(self.surface) != NO_SURFACE
                ==> {
                &&& final(b).only_log_changed(*old(b))
                &&& exists|flat: Vec<i32>|
                    (#[trigger] flat@) == spec_flatten_rects(rects@) && final(b).log@ == old(b).log@.push(
                        BackendCall::SwapBuffersWithDamage {
                            surface: spec_surface_or_none(self.surface),
                            rects: flat,
                            rect_count: rects@.len() as usize,
                        },
                    )
                &&& r == if old(b).context_lost {
                    Err::<(), ContextError>(ContextError::ContextLost)
                } else {
                    Ok::<(), ContextError>(())
                }
            },
    {
        if !b.swap_buffers_with_damage_supported() {
            return Err(ContextError::FunctionUnavailable);
        }

        let surface = match self.surface {
            Some(s) => s,
            None => NO_SURFACE,
        };
        if surface == NO_SURFACE {
            return Err(ContextError::ContextLost);
        }

        let flat = flatten_rects(rects);
        if b.swap_buffers_with_damage(self.display, surface, flat, rects.len()) {
            Ok(())
        } else {
            Err(ContextError::ContextLost)
        }
    }

    /// The resolved capabilities of the chosen configuration.
    pub fn get_pixel_format(&self) -> (r: PixelFormat)
        ensures
            r == self.pixel_format,
    {
        self.pixel_format.clone()
    }

    /// The age of the surface's back buffer; zero when the backend cannot
    /// report it.
    pub fn buffer_age(&self, b: &Backend) -> (r: u32)
        requires
            self.surface is Some,
        ensures
            r == if b.buffer_age_supported && b.buffer_age_value > 0 {
                b.buffer_age_value as u32
            } else {
                0u32
            },
    {
        let surface = match self.surface {
            Some(s) => s,
            None => NO_SURFACE,
        };
        let age = b.query_buffer_age(surface);
        if age > 0 {
            age as u32
        } else {
            0
        }
    }

    /// Tear the context down: activate it so its pending work can be
    /// flushed, flush, then destroy the native context and surface. The
    /// previously-current tuple is restored afterwards unless the
    /// destroyed handles are part of it. The display handle is
    /// deliberately not released.
    #[verifier::rlimit(100)]
    pub fn destroy(self, b: &mut Backend) -> (r: Result<(), ContextError>)
        ensures
            old(b).context_lost ==> r == Err::<(), ContextError>(ContextError::ContextLost)
                && final(b).only_log_changed(*old(b)) && final(b).log@ == old(b).log@.push(
                BackendCall::MakeCurrent {
                    display: self.display,
                    draw: spec_surface_or_none(self.surface),
                    read: spec_surface_or_none(self.surface),
                    context: self.context,
                },
            ),
            !old(b).context_lost ==> {
                let s = spec_surface_or_none(self.surface);
                let invalidated = old(b).current.draw == s || old(b).current.read == s || old(b).current.context == self.context;
                &&& r is Ok
                &&& final(b).only_log_and_current_changed(*old(b))
                &&& final(b).log@ == old(b).log@ + seq![
                    BackendCall::MakeCurrent {
                        display: self.display,
                        draw: s,
                        read: s,
                        context: self.context,
                    },
                    BackendCall::Finish,
                    BackendCall::DestroyContext { display: self.display, context: self.context },
                    BackendCall::DestroySurface { display: self.display, surface: s },
                ] + if invalidated {
                    seq![]
                } else {
                    seq![
                        BackendCall::MakeCurrent {
                            display: spec_restored_current(old(b).current, self.display).display,
                            draw: old(b).current.draw,
                            read: old(b).current.read,
                            context: old(b).current.context,
                        },
                    ]
                }
                &&& final(b).current == if invalidated {
                    CurrentTuple { display: self.display, draw: s, read: s, context: self.context }
                } else {
                    spec_restored_current(old(b).current, self.display)
                }
            },
    {
        let surface = match self.surface {
            Some(s) => s,
            None => NO_SURFACE,
        };

        // The pending work of the context only reliably finishes if the
        // context is current while flushing.
        let mut guard = match MakeCurrentGuard::new(b, self.display, surface, surface, self.context)
            {
            Ok(guard) => guard,
            Err(e) => {
                return Err(e);
            },
        };
        guard.if_any_same_then_invalidate(surface, surface, self.context);

        b.finish();
        b.destroy_context(self.display, self.context);
        b.destroy_surface(self.display, surface);

        let ghost pre_release = b.log@;
        let result = guard.release(b);
        proof {
            if !guard.invalidated {
                assert(final(b).log@ == pre_release.push(
                    BackendCall::MakeCurrent {
                        display: crate::guard::spec_restore_tuple(guard).display,
                        draw: guard.saved.draw,
                        read: guard.saved.read,
                        context: guard.saved.context,
                    },
                ));
            }
            assert(final(b).log@ =~= old(b).log@ + seq![
                BackendCall::MakeCurrent {
                    display: self.display,
                    draw: spec_surface_or_none(self.surface),
                    read: spec_surface_or_none(self.surface),
                    context: self.context,
                },
                BackendCall::Finish,
                BackendCall::DestroyContext { display: self.display, context: self.context },
                BackendCall::DestroySurface {
                    display: self.display,
                    surface: spec_surface_or_none(self.surface),
                },
            ] + if guard.invalidated {
                seq![]
            } else {
                seq![
                    BackendCall::MakeCurrent {
                        display: spec_restored_current(old(b).current, self.display).display,
                        draw: old(b).current.draw,
                        read: old(b).current.read,
                        context: old(b).current.context,
                    },
                ]
            });
        }
        match result {
            Ok(()) => Ok(()),
            Err(e) => Err(e),
        }
    }
}

/// Flatten damage rectangles into the backend's attribute layout: four
/// integers per rectangle, in submission order.
pub open spec fn spec_flatten_rects(rects: Seq<Rect>) -> Seq<i32>
    decreases rects.len(),
{
    if rects.len() == 0 {
        seq![]
    } else {
        spec_flatten_rects(rects.drop_last()) + seq![
            rects.last().x as i32,
            rects.last().y as i32,
            rects.last().width as i32,
            rects.last().height as i32,
        ]
    }
}

/// Flatten damage rectangles into the backend's attribute layout.
fn flatten_rects(rects: &Vec<Rect>) -> (r: Vec<i32>)
    requires
        forall|i: int|
            0 <= i < rects@.len() ==> (#[trigger] rects@[i]).x <= 0x7fff_ffff && rects@[i].y
                <= 0x7fff_ffff && rects@[i].width <= 0x7fff_ffff && rects@[i].height
                <= 0x7fff_ffff,
    ensures
        r@ == spec_flatten_rects(rects@),
{
    let mut out: Vec<i32> = Vec::new();
    let mut i: usize = 0;
    proof {
        assert(rects@.take(0) =~= Seq::<Rect>::empty());
    }
    while i < rects.len()
        invariant
            0 <= i <= rects@.len(),
            out@ == spec_flatten_rects(rects@.take(i as int)),
            forall|k: int|
                0 <= k < rects@.len() ==> (#[trigger] rects@[k]).x <= 0x7fff_ffff && rects@[k].y
                    <= 0x7fff_ffff && rects@[k].width <= 0x7fff_ffff && rects@[k].height
                    <= 0x7fff_ffff,
        decreases rects@.len() - i,
    {
        let rect = rects[i];
        out.push(rect.x as i32);
        out.push(rect.y as i32);
        out.push(rect.width as i32);
        out.push(rect.height as i32);
        proof {
            assert(rects@.take(i + 1).drop_last() =~= rects@.take(i as int));
            assert(rects@.take(i + 1).last() == rects@[i as int]);
        }
        i = i + 1;
    }
    proof {
        assert(rects@.take(rects@.len() as int) =~= rects@);
    }
    out
}

/// Query the native visual of a chosen configuration.
pub fn get_native_visual_id(b: &Backend, display: u64, config_id: u64) -> (r: i32)
    requires
        b.spec_find_config(config_id) is Some,
    ensures
        b.spec_find_config(config_id) matches Some(caps) && r == caps.native_visual_id,
{
    match b.get_config_caps(config_id) {
        Some(caps) => caps.native_visual_id,
        None => {
            // Unreachable: the chosen configuration is in the table.
            proof {
                assert(false);
            }
            0
        },
    }
}

/// A negotiated, not-yet-finished context: everything is settled but the
/// surface. Consumed exactly once by one of the finish operations.
#[derive(Debug)]
pub struct ContextPrototype {
    /// The creation policy the prototype was negotiated for; the sharing
    /// field holds the raw handle of the context whose objects are
    /// shared.
    pub opengl: GlAttributes<u64>,
    /// The display the context will be created against.
    pub display: u64,
    /// The backend version the display reported.
    pub egl_version: (i32, i32),
    /// The display's extensions.
    pub extensions: DisplayExtensions,
    /// The API negotiation bound.
    pub api: Api,
    /// The version negotiation pinned, when it pinned one.
    pub version: Option<(u8, u8)>,
    /// The chosen configuration.
    pub config_id: u64,
    /// The resolved capabilities of the chosen configuration.
    pub pixel_format: PixelFormat,
    /// The swap intervals the chosen configuration supports.
    pub swap_interval_range: SwapIntervalRange,
}

impl ContextPrototype {
    /// The display is real and the interval bounds are ordered.
    pub open spec fn wf(&self) -> bool {
        &&& self.display != NO_DISPLAY
        &&& self.swap_interval_range.min <= self.swap_interval_range.max
    }

    /// Query the native visual of the chosen configuration.
    pub fn get_native_visual_id(&self, b: &Backend) -> (r: i32)
        requires
            b.spec_find_config(self.config_id) is Some,
        ensures
            b.spec_find_config(self.config_id) matches Some(caps) && r == caps.native_visual_id,
    {
        get_native_visual_id(b, self.display, self.config_id)
    }

    /// Attach a native window surface and create the context.
    pub fn finish(self, b: &mut Backend, native_window: u64) -> (r: Result<Context, CreationError>)
        requires
            old(b).wf(),
            old(b).next_handle < 0xffff_ffff_ffff_0000u64,
            self.wf(),
        ensures
            final(b).wf(),
            !old(b).window_surface_ok ==> r == Err::<Context, CreationError>(
                CreationError::OsError(OsFailure::CreateWindowSurface),
            ) && final(b).log@ == old(b).log@ + seq![
                BackendCall::CreateWindowSurface { config: self.config_id },
            ],
            old(b).window_surface_ok ==> final(b).log@ == old(b).log@ + seq![
                BackendCall::CreateWindowSurface { config: self.config_id },
            ] + (if spec_robustness_refused(
                self.egl_version,
                self.extensions,
                self.api,
                self.opengl.robustness,
            ) {
                Seq::<BackendCall>::empty()
            } else {
                spec_creation_attempts(
                    *old(b),
                    self.api,
                    spec_candidate_versions(self.api, self.version),
                    self.config_id,
                ) + (if spec_any_attempt_succeeds(
                    *old(b),
                    self.egl_version,
                    self.extensions,
                    self.api,
                    self.opengl.robustness,
                    spec_candidate_versions(self.api, self.version),
                ) {
                    spec_interval_setup_calls(
                        *old(b),
                        self.display,
                        old(b).next_handle,
                        (old(b).next_handle + 1) as u64,
                        self.opengl.vsync,
                    )
                } else {
                    Seq::<BackendCall>::empty()
                })
            }),
            old(b).window_surface_ok && !old(b).context_lost && spec_any_attempt_succeeds(
                *old(b),
                self.egl_version,
                self.extensions,
                self.api,
                self.opengl.robustness,
                spec_candidate_versions(self.api, self.version),
            ) ==> r is Ok,
            r matches Err(e) ==> (e == CreationError::OsError(OsFailure::CreateWindowSurface) || e
                == CreationError::RobustnessNotSupported || e
                == CreationError::OpenGlVersionNotSupported || e == CreationError::OsError(
                OsFailure::MakeCurrent,
            )),
            match r {
                Ok(c) => {
                    &&& c.wf()
                    &&& c.api == self.api
                    &&& c.display == self.display
                    &&& c.pixel_format == self.pixel_format
                    &&& c.swap_interval_range == self.swap_interval_range
                    &&& (c.surface matches Some(s) && s != NO_SURFACE)
                    &&& !old(b).context_lost
                    &&& spec_any_attempt_succeeds(
                        *old(b),
                        self.egl_version,
                        self.extensions,
                        self.api,
                        self.opengl.robustness,
                        spec_candidate_versions(self.api, self.version),
                    )
                },
                Err(_) => true,
            },
    {
        let ghost versions = spec_candidate_versions(self.api, self.version);
        let surface = b.create_window_surface(self.config_id, native_window);
        if surface == NO_SURFACE {
            return Err(CreationError::OsError(OsFailure::CreateWindowSurface));
        }
        let ghost mid = *b;
        let r = self.finish_impl(b, Some(surface));
        proof {
            lemma_attempts_agree(mid, *old(b), self.api, versions, self.config_id);
            lemma_any_attempt_agree(
                mid,
                *old(b),
                self.egl_version,
                self.extensions,
                self.api,
                self.opengl.robustness,
                versions,
            );
            if !spec_robustness_refused(
                self.egl_version,
                self.extensions,
                self.api,
                self.opengl.robustness,
            ) && spec_any_attempt_succeeds(
                *old(b),
                self.egl_version,
                self.extensions,
                self.api,
                self.opengl.robustness,
                versions,
            ) {
                assert(spec_interval_setup_calls(
                    mid,
                    self.display,
                    surface,
                    mid.next_handle,
                    self.opengl.vsync,
                ) =~= spec_interval_setup_calls(
                    *old(b),
                    self.display,
                    old(b).next_handle,
                    (old(b).next_handle + 1) as u64,
                    self.opengl.vsync,
                ));
            }
            assert(final(b).log@ =~= old(b).log@ + seq![
                BackendCall::CreateWindowSurface { config: self.config_id },
            ] + (if spec_robustness_refused(
                self.egl_version,
                self.extensions,
                self.api,
                self.opengl.robustness,
            ) {
                Seq::<BackendCall>::empty()
            } else {
                spec_creation_attempts(*old(b), self.api, versions, self.config_id) + (
                if spec_any_attempt_succeeds(
                    *old(b),
                    self.egl_version,
                    self.extensions,
                    self.api,
                    self.opengl.robustness,
                    versions,
                ) {
                    spec_interval_setup_calls(
                        *old(b),
                        self.display,
                        old(b).next_handle,
                        (old(b).next_handle + 1) as u64,
                        self.opengl.vsync,
                    )
                } else {
                    Seq::<BackendCall>::empty()
                })
            }));
        }
        r
    }

    /// Create the context without any surface; only backends advertising
    /// surfaceless contexts support this.
    pub fn finish_surfaceless(self, b: &mut Backend) -> (r: Result<Context, CreationError>)
        requires
            old(b).wf(),
            old(b).next_handle < 0xffff_ffff_ffff_0000u64,
            self.wf(),
        ensures
            final(b).wf(),
            !self.extensions.khr_surfaceless_context ==> r == Err::<Context, CreationError>(
                CreationError::NotSupported(crate::NotSupportedReason::Surfaceless),
            ) && *final(b) == *old(b),
            self.extensions.khr_surfaceless_context ==> final(b).log@ == old(b).log@ + (
            if spec_robustness_refused(
                self.egl_version,
                self.extensions,
                self.api,
                self.opengl.robustness,
            ) {
                Seq::<BackendCall>::empty()
            } else {
                spec_creation_attempts(
                    *old(b),
                    self.api,
                    spec_candidate_versions(self.api, self.version),
                    self.config_id,
                )
            }),
            match r {
                Ok(c) => {
                    &&& c.wf()
                    &&& c.api == self.api
                    &&& c.display == self.display
                    &&& c.pixel_format == self.pixel_format
                    &&& c.swap_interval_range == self.swap_interval_range
                    &&& c.surface is None
                    &&& final(b).current == old(b).current
                    &&& spec_any_attempt_succeeds(
                        *old(b),
                        self.egl_version,
                        self.extensions,
                        self.api,
                        self.opengl.robustness,
                        spec_candidate_versions(self.api, self.version),
                    )
                },
                Err(_) => true,
            },
            self.extensions.khr_surfaceless_context && spec_any_attempt_succeeds(
                *old(b),
                self.egl_version,
                self.extensions,
                self.api,
                self.opengl.robustness,
                spec_candidate_versions(self.api, self.version),
            ) ==> r is Ok,
            r matches Err(e) ==> ((e == CreationError::NotSupported(
                crate::NotSupportedReason::Surfaceless,
            ) && !self.extensions.khr_surfaceless_context) || e
                == CreationError::RobustnessNotSupported || e
                == CreationError::OpenGlVersionNotSupported),
    {
        if !self.extensions.khr_surfaceless_context {
            Err(CreationError::NotSupported(crate::NotSupportedReason::Surfaceless))
        } else {
            self.finish_impl(b, None)
        }
    }

    /// Attach a fresh offscreen buffer of the given size and create the
    /// context.
    pub fn finish_pbuffer(self, b: &mut Backend, size: (u32, u32)) -> (r: Result<
        Context,
        CreationError,
    >)
        requires
            old(b).wf(),
            old(b).next_handle < 0xffff_ffff_ffff_0000u64,
            self.wf(),
            size.0 <= 0x7fff_ffff,
            size.1 <= 0x7fff_ffff,
        ensures
            final(b).wf(),
            !old(b).pbuffer_surface_ok ==> r == Err::<Context, CreationError>(
                CreationError::OsError(OsFailure::CreatePbufferSurface),
            ) && final(b).log@ == old(b).log@ + seq![
                BackendCall::CreatePbufferSurface {
                    config: self.config_id,
                    width: size.0 as i32,
                    height: size.1 as i32,
                },
            ],
            old(b).pbuffer_surface_ok ==> final(b).log@ == old(b).log@ + seq![
                BackendCall::CreatePbufferSurface {
                    config: self.config_id,
                    width: size.0 as i32,
                    height: size.1 as i32,
                },
            ] + (if spec_robustness_refused(
                self.egl_version,
                self.extensions,
                self.api,
                self.opengl.robustness,
            ) {
                Seq::<BackendCall>::empty()
            } else {
                spec_creation_attempts(
                    *old(b),
                    self.api,
                    spec_candidate_versions(self.api, self.version),
                    self.config_id,
                ) + (if spec_any_attempt_succeeds(
                    *old(b),
                    self.egl_version,
                    self.extensions,
                    self.api,
                    self.opengl.robustness,
                    spec_candidate_versions(self.api, self.version),
                ) {
                    spec_interval_setup_calls(
                        *old(b),
                        self.display,
                        old(b).next_handle,
                        (old(b).next_handle + 1) as u64,
                        self.opengl.vsync,
                    )
                } else {
                    Seq::<BackendCall>::empty()
                })
            }),
            old(b).pbuffer_surface_ok && !old(b).context_lost && spec_any_attempt_succeeds(
                *old(b),
                self.egl_version,
                self.extensions,
                self.api,
                self.opengl.robustness,
                spec_candidate_versions(self.api, self.version),
            ) ==> r is Ok,
            r matches Err(e) ==> (e == CreationError::OsError(OsFailure::CreatePbufferSurface)
                || e == CreationError::RobustnessNotSupported || e
                == CreationError::OpenGlVersionNotSupported || e == CreationError::OsError(
                OsFailure::MakeCurrent,
            )),
            match r {
                Ok(c) => {
                    &&& c.wf()
                    &&& c.api == self.api
                    &&& c.display == self.display
                    &&& c.pixel_format == self.pixel_format
                    &&& c.swap_interval_range == self.swap_interval_range
                    &&& (c.surface matches Some(s) && s != NO_SURFACE)
                    &&& !old(b).context_lost
                    &&& spec_any_attempt_succeeds(
                        *old(b),
                        self.egl_version,
                        self.extensions,
                        self.api,
                        self.opengl.robustness,
                        spec_candidate_versions(self.api, self.version),
                    )
                },
                Err(_) => true,
            },
    {
        let ghost versions = spec_candidate_versions(self.api, self.version);
        let surface = b.create_pbuffer_surface(self.config_id, size.0 as i32, size.1 as i32);
        if surface == NO_SURFACE {
            return Err(CreationError::OsError(OsFailure::CreatePbufferSurface));
        }
        let ghost mid = *b;
        let r = self.finish_impl(b, Some(surface));
        proof {
            lemma_attempts_agree(mid, *old(b), self.api, versions, self.config_id);
            lemma_any_attempt_agree(
                mid,
                *old(b),
                self.egl_version,
                self.extensions,
                self.api,
                self.opengl.robustness,
                versions,
            );
            if !spec_robustness_refused(
                self.egl_version,
                self.extensions,
                self.api,
                self.opengl.robustness,
            ) && spec_any_attempt_succeeds(
                *old(b),
                self.egl_version,
                self.extensions,
                self.api,
                self.opengl.robustness,
                versions,
            ) {
                assert(spec_interval_setup_calls(
                    mid,
                    self.display,
                    surface,
                    mid.next_handle,
                    self.opengl.vsync,
                ) =~= spec_interval_setup_calls(
                    *old(b),
                    self.display,
                    old(b).next_handle,
                    (old(b).next_handle + 1) as u64,
                    self.opengl.vsync,
                ));
            }
            assert(final(b).log@ =~= old(b).log@ + seq![
                BackendCall::CreatePbufferSurface {
                    config: self.config_id,
                    width: size.0 as i32,
                    height: size.1 as i32,
                },
            ] + (if spec_robustness_refused(
                self.egl_version,
                self.extensions,
                self.api,
                self.opengl.robustness,
            ) {
                Seq::<BackendCall>::empty()
            } else {
                spec_creation_attempts(*old(b), self.api, versions, self.config_id) + (
                if spec_any_attempt_succeeds(
                    *old(b),
                    self.egl_version,
                    self.extensions,
                    self.api,
                    self.opengl.robustness,
                    versions,
                ) {
                    spec_interval_setup_calls(
                        *old(b),
                        self.display,
                        old(b).next_handle,
                        (old(b).next_handle + 1) as u64,
                        self.opengl.vsync,
                    )
                } else {
                    Seq::<BackendCall>::empty()
                })
            }));
        }
        r
    }

    /// Create the native context, trying the candidate versions in order
    /// until the backend accepts one, then set the requested swap
    /// interval through a scoped activation and assemble the finished
    /// context.
    #[verifier::rlimit(100)]
    #[verifier::spinoff_prover]
    fn finish_impl(self, b: &mut Backend, surface: Option<u64>) -> (r: Result<
        Context,
        CreationError,
    >)
        requires
            old(b).wf(),
            old(b).next_handle < u64::MAX,
            self.wf(),
            surface matches Some(s) ==> s != NO_SURFACE,
        ensures
            final(b).wf(),
            final(b).context_lost == old(b).context_lost,
            spec_robustness_refused(
                self.egl_version,
                self.extensions,
                self.api,
                self.opengl.robustness,
            ) ==> *final(b) == *old(b),
            !spec_robustness_refused(
                self.egl_version,
                self.extensions,
                self.api,
                self.opengl.robustness,
            ) ==> final(b).log@ == old(b).log@ + spec_creation_attempts(
                *old(b),
                self.api,
                spec_candidate_versions(self.api, self.version),
                self.config_id,
            ) + (if spec_any_attempt_succeeds(
                *old(b),
                self.egl_version,
                self.extensions,
                self.api,
                self.opengl.robustness,
                spec_candidate_versions(self.api, self.version),
            ) && surface is Some {
                spec_interval_setup_calls(
                    *old(b),
                    self.display,
                    spec_surface_or_none(surface),
                    old(b).next_handle,
                    self.opengl.vsync,
                )
            } else {
                Seq::<BackendCall>::empty()
            }),
            match r {
                Ok(c) => {
                    &&& c.wf()
                    &&& c.context == old(b).next_handle
                    &&& c == (Context {
                        display: self.display,
                        context: c.context,
                        surface,
                        api: self.api,
                        pixel_format: self.pixel_format,
                        swap_interval_range: self.swap_interval_range,
                    })
                    &&& spec_any_attempt_succeeds(
                        *old(b),
                        self.egl_version,
                        self.extensions,
                        self.api,
                        self.opengl.robustness,
                        spec_candidate_versions(self.api, self.version),
                    )
                    &&& (surface is Some ==> !old(b).context_lost && final(b).current
                        == spec_restored_current(old(b).current, self.display))
                    &&& (surface is None ==> final(b).current == old(b).current)
                },
                Err(e) => {
                    &&& (e == CreationError::RobustnessNotSupported ==> self.version is Some
                        && spec_robustness_refused(
                        self.egl_version,
                        self.extensions,
                        self.api,
                        self.opengl.robustness,
                    ))
                    &&& (e == CreationError::OpenGlVersionNotSupported
                        ==> !spec_any_attempt_succeeds(
                        *old(b),
                        self.egl_version,
                        self.extensions,
                        self.api,
                        self.opengl.robustness,
                        spec_candidate_versions(self.api, self.version),
                    ))
                    &&& (e == CreationError::OsError(OsFailure::MakeCurrent) ==> old(b).context_lost && surface is Some)
                    &&& (e == CreationError::RobustnessNotSupported || e
                        == CreationError::OpenGlVersionNotSupported || e == CreationError::OsError(
                        OsFailure::MakeCurrent,
                    ))
                },
            },
            spec_any_attempt_succeeds(
                *old(b),
                self.egl_version,
                self.extensions,
                self.api,
                self.opengl.robustness,
                spec_candidate_versions(self.api, self.version),
            ) && (surface is Some ==> !old(b).context_lost) ==> r is Ok,
    {
        let share = match self.opengl.sharing {
            Some(handle) => handle,
            None => NO_CONTEXT,
        };

        let ghost versions = spec_candidate_versions(self.api, self.version);

        let context: u64 = match create_first_supported(
            b,
            self.display,
            self.egl_version,
            self.extensions,
            self.api,
            self.version,
            self.config_id,
            self.opengl.debug,
            self.opengl.robustness,
            share,
        ) {
            Ok(context) => context,
            Err(e) => {
                return Err(e);
            },
        };
        let ghost after_creation = b.log@;

        if let Some(s) = surface {
            // The swap interval belongs to the (display, context) pair:
            // set it while the fresh context is current, then restore
            // whatever was current before.
            let guard = match MakeCurrentGuard::new(b, self.display, s, s, context) {
                Ok(guard) => guard,
                Err(_) => {
                    proof {
                        assert(b.log@ =~= after_creation + spec_interval_setup_calls(
                            *old(b),
                            self.display,
                            s,
                            context,
                            self.opengl.vsync,
                        ));
                    }
                    return Err(CreationError::OsError(OsFailure::MakeCurrent));
                },
            };
            b.swap_interval(self.display, self.opengl.vsync.get_swap_interval());
            match guard.release(b) {
                Ok(()) => {},
                Err(_) => {
                    return Err(CreationError::OsError(OsFailure::MakeCurrent));
                },
            }
            proof {
                assert(b.log@ =~= after_creation + spec_interval_setup_calls(
                    *old(b),
                    self.display,
                    s,
                    context,
                    self.opengl.vsync,
                ));
            }
        }

        Ok(
            Context {
                display: self.display,
                context,
                surface,
                api: self.api,
                pixel_format: self.pixel_format,
                swap_interval_range: self.swap_interval_range,
            },
        )
    }
}

impl Context {
    /// Start building a context: acquire and initialize the display, bind
    /// the requested API, and choose a configuration. The returned
    /// prototype carries everything but the surface.
    #[verifier::rlimit(100)]
    #[verifier::spinoff_prover]
    pub fn new<F: Fn(Vec<u64>, u64) -> Result<u64, ()>>(
        b: &mut Backend,
        pf_reqs: &PixelFormatRequirements,
        opengl: &GlAttributes<u64>,
        native_display: NativeDisplay,
        surface_type: SurfaceType,
        config_selector: F,
    ) -> (r: Result<ContextPrototype, CreationError>)
        requires
            old(b).wf(),
            pf_reqs.x11_visual_xid matches Some(xid) ==> xid <= 0x7fff_ffff,
            forall|ids: Vec<u64>, d: u64| #[trigger] config_selector.requires((ids, d)),
        ensures
            final(b).wf(),
            final(b).only_log_changed(*old(b)),
            final(b).log@ == old(b).log@ + spec_negotiation_calls(
                *old(b),
                opengl.version,
                native_display,
                *pf_reqs,
            ),
            old(b).display_handle == NO_DISPLAY ==> r == Err::<ContextPrototype, CreationError>(
                CreationError::OsError(OsFailure::GetDisplay),
            ),
            old(b).display_handle != NO_DISPLAY && !old(b).init_ok ==> r == Err::<
                ContextPrototype,
                CreationError,
            >(CreationError::OsError(OsFailure::Initialize)),
            old(b).display_handle != NO_DISPLAY && old(b).init_ok ==> (spec_bind_plan(
                opengl.version,
                old(b).version,
                old(b).gl_bindable,
                old(b).es_bindable,
            ) matches Err(e) ==> r == Err::<ContextPrototype, CreationError>(e)),
            old(b).display_handle != NO_DISPLAY && old(b).init_ok ==> (spec_bind_plan(
                opengl.version,
                old(b).version,
                old(b).gl_bindable,
                old(b).es_bindable,
            ) matches Ok(p) ==> {
                let descriptor_err = crate::select::spec_descriptor_error(
                    old(b).version,
                    p.1,
                    p.0,
                    *pf_reqs,
                );
                &&& (descriptor_err matches Some(e) ==> r == Err::<
                    ContextPrototype,
                    CreationError,
                >(e))
                &&& (descriptor_err is None && !old(b).choose_config_ok ==> r == Err::<
                    ContextPrototype,
                    CreationError,
                >(CreationError::OsError(OsFailure::ChooseConfig)))
                &&& (descriptor_err is None && old(b).choose_config_ok && r is Err ==> r == Err::<
                    ContextPrototype,
                    CreationError,
                >(CreationError::NoAvailablePixelFormat))
                &&& (descriptor_err is None && old(b).choose_config_ok ==> ({
                    let cands = spec_candidates(
                        old(b).configs@,
                        pf_reqs.multisampling,
                        spec_swap_interval(opengl.vsync),
                    );
                    cands.len() > 0 ==> exists|ids: Vec<u64>, ret: Result<u64, ()>|
                        {
                            &&& ids@ == cands.map_values(|c: ConfigCaps| c.id)
                            &&& #[trigger] config_selector.ensures(
                                (ids, old(b).display_handle),
                                ret,
                            )
                            &&& match ret {
                                Ok(chosen) => match crate::backend::spec_find_config_in(
                                    cands,
                                    chosen,
                                ) {
                                    Some(c) => r matches Ok(proto) && proto.config_id == chosen
                                        && proto.pixel_format == spec_pixel_format(c)
                                        && proto.swap_interval_range == spec_interval_range(c),
                                    None => r == Err::<ContextPrototype, CreationError>(
                                        CreationError::NoAvailablePixelFormat,
                                    ),
                                },
                                Err(()) => r == Err::<ContextPrototype, CreationError>(
                                    CreationError::NoAvailablePixelFormat,
                                ),
                            }
                        }
                }))
            }),
            match r {
                Ok(proto) => {
                    &&& proto.wf()
                    &&& proto.display == old(b).display_handle
                    &&& proto.display != NO_DISPLAY
                    &&& old(b).init_ok
                    &&& proto.egl_version == old(b).version
                    &&& proto.extensions == if spec_version_at_least(old(b).version, 1, 2) {
                        old(b).display_extensions
                    } else {
                        DisplayExtensions {
                            khr_create_context: false,
                            ext_create_context_robustness: false,
                            khr_create_context_no_error: false,
                            khr_surfaceless_context: false,
                        }
                    }
                    &&& spec_bind_plan(
                        opengl.version,
                        old(b).version,
                        old(b).gl_bindable,
                        old(b).es_bindable,
                    ) == Ok::<(Option<(u8, u8)>, Api), CreationError>((proto.version, proto.api))
                    &&& proto.opengl == *opengl
                    &&& final(b).spec_find_config(proto.config_id) is Some
                    &&& proto.swap_interval_range.min <= spec_swap_interval(opengl.vsync)
                        <= proto.swap_interval_range.max
                    &&& match pf_reqs.multisampling {
                        Some(n) => if n <= 1 {
                            proto.pixel_format.multisampling is None
                        } else {
                            proto.pixel_format.multisampling == Some(n)
                        },
                        None => true,
                    }
                },
                Err(_) => true,
            },
    {
        let ghost calls = spec_negotiation_calls(*old(b), opengl.version, native_display, *pf_reqs);

        let (display, egl_version, extensions, version, api) = match acquire_and_bind(
            b,
            opengl.version,
            &native_display,
        ) {
            Ok(t) => t,
            Err(e) => {
                proof {
                    assert(b.log@ =~= old(b).log@ + calls);
                }
                return Err(e);
            },
        };
        let ghost after_bind = b.log@;

        let selection = choose_fbconfig(
            b,
            display,
            egl_version,
            api,
            version,
            pf_reqs,
            surface_type,
            opengl,
            config_selector,
        );
        let ghost selection_ghost = selection;
        let ghost cands = spec_candidates(
            old(b).configs@,
            pf_reqs.multisampling,
            spec_swap_interval(opengl.vsync),
        );

        let outcome: Result<ContextPrototype, CreationError> = match selection {
            Ok(t) => {
                let (config_id, pixel_format, swap_interval_range) = t;
                proof {
                    assert(b.log@ =~= old(b).log@ + calls);
                    crate::select::lemma_candidates_sound(
                        old(b).configs@,
                        pf_reqs.multisampling,
                        spec_swap_interval(opengl.vsync),
                    );
                    let i = choose|i: int|
                        0 <= i < cands.len() && (#[trigger] cands[i]).id == config_id
                            && pixel_format == spec_pixel_format(cands[i])
                            && swap_interval_range == spec_interval_range(cands[i]);
                    assert(b.configs@.contains(cands[i]));
                    crate::backend::lemma_find_config_by_id(b.configs@, cands[i]);
                }
                let opengl_owned = GlAttributes {
                    sharing: opengl.sharing,
                    version: opengl.version,
                    profile: opengl.profile,
                    debug: opengl.debug,
                    robustness: opengl.robustness,
                    vsync: opengl.vsync,
                };
                Ok(
                    ContextPrototype {
                        opengl: opengl_owned,
                        display,
                        egl_version,
                        extensions,
                        api,
                        version,
                        config_id,
                        pixel_format,
                        swap_interval_range,
                    },
                )
            },
            Err(e) => {
                proof {
                    if crate::select::spec_descriptor_error(egl_version, api, version, *pf_reqs)
                        is None {
                        assert(b.log@ =~= after_bind.push(BackendCall::ChooseConfig));
                    } else {
                        assert(b.log@ == after_bind);
                    }
                    assert(b.log@ =~= old(b).log@ + calls);
                }
                Err(e)
            },
        };

        proof {
            if crate::select::spec_descriptor_error(egl_version, api, version, *pf_reqs) is None
                && old(b).choose_config_ok && cands.len() > 0 {
                let (ids, ret) = choose|ids: Vec<u64>, ret: Result<u64, ()>|
                    {
                        &&& ids@ == cands.map_values(|c: ConfigCaps| c.id)
                        &&& #[trigger] config_selector.ensures((ids, display), ret)
                        &&& match ret {
                            Ok(chosen) => match crate::backend::spec_find_config_in(
                                cands,
                                chosen,
                            ) {
                                Some(c) => selection_ghost == Ok::<
                                    (u64, PixelFormat, SwapIntervalRange),
                                    CreationError,
                                >((chosen, spec_pixel_format(c), spec_interval_range(c))),
                                None => selection_ghost == Err::<
                                    (u64, PixelFormat, SwapIntervalRange),
                                    CreationError,
                                >(CreationError::NoAvailablePixelFormat),
                            },
                            Err(()) => selection_ghost == Err::<
                                (u64, PixelFormat, SwapIntervalRange),
                                CreationError,
                            >(CreationError::NoAvailablePixelFormat),
                        }
                    };
                assert(config_selector.ensures((ids, old(b).display_handle), ret));
                assert({
                    &&& ids@ == cands.map_values(|c: ConfigCaps| c.id)
                    &&& config_selector.ensures((ids, old(b).display_handle), ret)
                    &&& match ret {
                        Ok(chosen) => match crate::backend::spec_find_config_in(cands, chosen) {
                            Some(c) => outcome matches Ok(proto) && proto.config_id == chosen
                                && proto.pixel_format == spec_pixel_format(c)
                                && proto.swap_interval_range == spec_interval_range(c),
                            None => outcome == Err::<ContextPrototype, CreationError>(
                                CreationError::NoAvailablePixelFormat,
                            ),
                        },
                        Err(()) => outcome == Err::<ContextPrototype, CreationError>(
                            CreationError::NoAvailablePixelFormat,
                        ),
                    }
                });
            }
        }

        outcome
    }
}

} // verus!