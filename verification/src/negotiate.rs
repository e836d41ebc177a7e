//! Version negotiation: binding the rendering API, mapping the requested
//! robustness policy to creation attributes, and the per-candidate context
//! creation attempt.

use vstd::prelude::*;

use crate::backend::{
    Backend, BackendCall, DisplayExtensions, spec_version_at_least, version_at_least,
};
use crate::select::ATTRIB_NONE;
use crate::{Api, CreationError, GlRequest, Robustness};

verus! {

/// Attribute key: requested major version, modern creation path. The same
/// key carries the whole version on the legacy path.
pub const CONTEXT_MAJOR_VERSION: i32 = 0x3098;
/// Attribute key: requested minor version, modern creation path.
pub const CONTEXT_MINOR_VERSION: i32 = 0x30FB;
/// Attribute key: the debug flag of the context.
pub const CONTEXT_OPENGL_DEBUG: i32 = 0x31B0;
/// Attribute key: creation flags.
pub const CONTEXT_FLAGS: i32 = 0x30FC;
/// Creation flag: robust buffer access.
pub const ROBUST_ACCESS_FLAG: i32 = 0x0004;
/// Attribute key: the reset notification strategy.
pub const RESET_NOTIFICATION_STRATEGY: i32 = 0x31BD;
/// Strategy value: no notification on reset.
pub const NO_RESET_NOTIFICATION: i32 = 0x31BE;
/// Strategy value: the context is lost on reset.
pub const LOSE_CONTEXT_ON_RESET: i32 = 0x31BF;
/// Attribute key: the no-error mode of the context.
pub const CONTEXT_NO_ERROR: i32 = 0x31B3;

/// The outcome of binding an API and pinning the version to create, as a
/// function of the request, the backend version, and what the two bind
/// calls would answer.
///
/// `Latest` prefers the desktop API where the backend version supports
/// extended creation, and falls back to the embedded API everywhere else;
/// a `None` version leaves the version to the creation fallback cascade.
pub open spec fn spec_bind_plan(
    request: GlRequest,
    egl_version: (i32, i32),
    gl_ok: bool,
    es_ok: bool,
) -> Result<(Option<(u8, u8)>, Api), CreationError> {
    match request {
        GlRequest::Latest => if spec_version_at_least(egl_version, 1, 4) {
            if gl_ok {
                Ok((None, Api::OpenGl))
            } else if es_ok {
                Ok((None, Api::OpenGlEs))
            } else {
                Err(CreationError::OpenGlVersionNotSupported)
            }
        } else {
            Ok((None, Api::OpenGlEs))
        },
        GlRequest::Specific(api, version) => match api {
            Api::OpenGlEs => if spec_version_at_least(egl_version, 1, 2) && !es_ok {
                Err(CreationError::OpenGlVersionNotSupported)
            } else {
                Ok((Some(version), Api::OpenGlEs))
            },
            Api::OpenGl => if !spec_version_at_least(egl_version, 1, 4) {
                Err(CreationError::OpenGlVersionNotSupported)
            } else if !gl_ok {
                Err(CreationError::OpenGlVersionNotSupported)
            } else {
                Ok((Some(version), Api::OpenGl))
            },
            Api::WebGl => Err(CreationError::OpenGlVersionNotSupported),
        },
        GlRequest::GlThenGles { opengl_version, opengles_version } => if spec_version_at_least(
            egl_version,
            1,
            4,
        ) {
            if gl_ok {
                Ok((Some(opengl_version), Api::OpenGl))
            } else if es_ok {
                Ok((Some(opengles_version), Api::OpenGlEs))
            } else {
                Err(CreationError::OpenGlVersionNotSupported)
            }
        } else {
            Ok((Some(opengles_version), Api::OpenGlEs))
        },
    }
}

/// The bind calls a request issues, in order: the embedded bind is only
/// tried after a desktop bind was refused, and requests that need no bind
/// on this backend version issue none.
pub open spec fn spec_bind_calls(
    request: GlRequest,
    egl_version: (i32, i32),
    gl_ok: bool,
) -> Seq<BackendCall> {
    match request {
        GlRequest::Latest | GlRequest::GlThenGles { .. } => if spec_version_at_least(
            egl_version,
            1,
            4,
        ) {
            if gl_ok {
                seq![BackendCall::BindApi { api: Api::OpenGl }]
            } else {
                seq![
                    BackendCall::BindApi { api: Api::OpenGl },
                    BackendCall::BindApi { api: Api::OpenGlEs },
                ]
            }
        } else {
            seq![]
        },
        GlRequest::Specific(api, _) => match api {
            Api::OpenGlEs => if spec_version_at_least(egl_version, 1, 2) {
                seq![BackendCall::BindApi { api: Api::OpenGlEs }]
            } else {
                seq![]
            },
            Api::OpenGl => if spec_version_at_least(egl_version, 1, 4) {
                seq![BackendCall::BindApi { api: Api::OpenGl }]
            } else {
                seq![]
            },
            Api::WebGl => seq![],
        },
    }
}

/// Bind the rendering API the request asks for and pin the version to
/// create, if the request carries one.
pub fn bind_and_get_api(b: &mut Backend, request: GlRequest, egl_version: (i32, i32)) -> (r:
    Result<(Option<(u8, u8)>, Api), CreationError>)
    ensures
        final(b).only_log_changed(*old(b)),
        final(b).log@ == old(b).log@ + spec_bind_calls(request, egl_version, old(b).gl_bindable),
        r == spec_bind_plan(request, egl_version, old(b).gl_bindable, old(b).es_bindable),
{
    match request {
        GlRequest::Latest => {
            if version_at_least(egl_version, 1, 4) {
                if b.bind_api(Api::OpenGl) {
                    Ok((None, Api::OpenGl))
                } else if b.bind_api(Api::OpenGlEs) {
                    Ok((None, Api::OpenGlEs))
                } else {
                    Err(CreationError::OpenGlVersionNotSupported)
                }
            } else {
                Ok((None, Api::OpenGlEs))
            }
        },
        GlRequest::Specific(api, version) => match api {
            Api::OpenGlEs => {
                if version_at_least(egl_version, 1, 2) && !b.bind_api(Api::OpenGlEs) {
                    return Err(CreationError::OpenGlVersionNotSupported);
                }
                Ok((Some(version), Api::OpenGlEs))
            },
            Api::OpenGl => {
                if !version_at_least(egl_version, 1, 4) {
                    return Err(CreationError::OpenGlVersionNotSupported);
                }
                if !b.bind_api(Api::OpenGl) {
                    return Err(CreationError::OpenGlVersionNotSupported);
                }
                Ok((Some(version), Api::OpenGl))
            },
            Api::WebGl => Err(CreationError::OpenGlVersionNotSupported),
        },
        GlRequest::GlThenGles { opengl_version, opengles_version } => {
            if version_at_least(egl_version, 1, 4) {
                if b.bind_api(Api::OpenGl) {
                    Ok((Some(opengl_version), Api::OpenGl))
                } else if b.bind_api(Api::OpenGlEs) {
                    Ok((Some(opengles_version), Api::OpenGlEs))
                } else {
                    Err(CreationError::OpenGlVersionNotSupported)
                }
            } else {
                Ok((Some(opengles_version), Api::OpenGlEs))
            }
        },
    }
}

/// Whether the backend takes the modern creation path: versioned
/// attributes, robustness and the debug flag.
pub open spec fn spec_modern_creation(egl_version: (i32, i32), ext: DisplayExtensions) -> bool {
    spec_version_at_least(egl_version, 1, 5) || ext.khr_create_context
}

/// Whether the backend can express a robustness request at creation.
pub open spec fn spec_supports_robustness(egl_version: (i32, i32), ext: DisplayExtensions) -> bool {
    spec_version_at_least(egl_version, 1, 5) || ext.ext_create_context_robustness
}

/// Whether building the creation attributes rejects the robustness
/// policy: the two required policies fail wherever the backend cannot
/// express them — on the modern path when the robustness extension is
/// absent, and on every legacy path, which cannot express robustness at
/// all. The two opportunistic policies never fail.
pub open spec fn spec_robustness_refused(
    egl_version: (i32, i32),
    ext: DisplayExtensions,
    api: Api,
    robustness: Robustness,
) -> bool {
    if spec_modern_creation(egl_version, ext) {
        match robustness {
            Robustness::RobustNoResetNotification | Robustness::RobustLoseContextOnReset =>
                !spec_supports_robustness(egl_version, ext),
            _ => false,
        }
    } else {
        robustness == Robustness::RobustNoResetNotification || robustness
            == Robustness::RobustLoseContextOnReset
    }
}

/// The robustness attribute pairs of the modern creation path, and
/// whether the robust-access creation flag is raised.
pub open spec fn spec_robustness_segment(
    egl_version: (i32, i32),
    ext: DisplayExtensions,
    robustness: Robustness,
) -> (Seq<i32>, bool) {
    match robustness {
        Robustness::NotRobust => (seq![], false),
        Robustness::NoError => if ext.khr_create_context_no_error {
            (seq![CONTEXT_NO_ERROR, 1i32], false)
        } else {
            (seq![], false)
        },
        Robustness::RobustNoResetNotification | Robustness::TryRobustNoResetNotification =>
            if spec_supports_robustness(egl_version, ext) {
            (seq![RESET_NOTIFICATION_STRATEGY, NO_RESET_NOTIFICATION], true)
        } else {
            (seq![], false)
        },
        Robustness::RobustLoseContextOnReset | Robustness::TryRobustLoseContextOnReset =>
            if spec_supports_robustness(egl_version, ext) {
            (seq![RESET_NOTIFICATION_STRATEGY, LOSE_CONTEXT_ON_RESET], true)
        } else {
            (seq![], false)
        },
    }
}

/// The ordered creation attributes for one candidate version, when the
/// robustness policy is not refused.
pub open spec fn spec_context_attributes(
    egl_version: (i32, i32),
    ext: DisplayExtensions,
    api: Api,
    version: (u8, u8),
    debug: bool,
    robustness: Robustness,
) -> Seq<i32> {
    if spec_modern_creation(egl_version, ext) {
        let (robust_seg, robust_flag) = spec_robustness_segment(egl_version, ext, robustness);
        seq![
            CONTEXT_MAJOR_VERSION,
            version.0 as i32,
            CONTEXT_MINOR_VERSION,
            version.1 as i32,
        ] + robust_seg + (if debug && spec_version_at_least(egl_version, 1, 5) {
            seq![CONTEXT_OPENGL_DEBUG, 1i32]
        } else {
            seq![]
        }) + (if robust_flag {
            seq![CONTEXT_FLAGS, ROBUST_ACCESS_FLAG]
        } else {
            seq![]
        }) + seq![ATTRIB_NONE]
    } else if spec_version_at_least(egl_version, 1, 3) && api == Api::OpenGlEs {
        seq![CONTEXT_MAJOR_VERSION, version.0 as i32, ATTRIB_NONE]
    } else {
        seq![ATTRIB_NONE]
    }
}

/// Build the ordered creation attributes for one candidate version, or
/// reject a robustness policy the backend cannot express. Runs without any
/// native call.
fn build_context_attributes(
    egl_version: (i32, i32),
    ext: DisplayExtensions,
    api: Api,
    version: (u8, u8),
    debug: bool,
    robustness: Robustness,
) -> (r: Result<Vec<i32>, CreationError>)
    ensures
        match r {
            Ok(v) => !spec_robustness_refused(egl_version, ext, api, robustness) && v@
                == spec_context_attributes(egl_version, ext, api, version, debug, robustness),
            Err(e) => spec_robustness_refused(egl_version, ext, api, robustness) && e
                == CreationError::RobustnessNotSupported,
        },
{
    let mut out: Vec<i32> = Vec::new();
    let modern = version_at_least(egl_version, 1, 5) || ext.khr_create_context;
    if modern {
        out.push(CONTEXT_MAJOR_VERSION);
        out.push(version.0 as i32);
        out.push(CONTEXT_MINOR_VERSION);
        out.push(version.1 as i32);
        let ghost s1 = out@;

        let supports_robustness = version_at_least(egl_version, 1, 5)
            || ext.ext_create_context_robustness;
        let mut robust_flag = false;
        match robustness {
            Robustness::NotRobust => {},
            Robustness::NoError => {
                if ext.khr_create_context_no_error {
                    out.push(CONTEXT_NO_ERROR);
                    out.push(1);
                }
            },
            Robustness::RobustNoResetNotification => {
                if supports_robustness {
                    out.push(RESET_NOTIFICATION_STRATEGY);
                    out.push(NO_RESET_NOTIFICATION);
                    robust_flag = true;
                } else {
                    return Err(CreationError::RobustnessNotSupported);
                }
            },
            Robustness::TryRobustNoResetNotification => {
                if supports_robustness {
                    out.push(RESET_NOTIFICATION_STRATEGY);
                    out.push(NO_RESET_NOTIFICATION);
                    robust_flag = true;
                }
            },
            Robustness::RobustLoseContextOnReset => {
                if supports_robustness {
                    out.push(RESET_NOTIFICATION_STRATEGY);
                    out.push(LOSE_CONTEXT_ON_RESET);
                    robust_flag = true;
                } else {
                    return Err(CreationError::RobustnessNotSupported);
                }
            },
            Robustness::TryRobustLoseContextOnReset => {
                if supports_robustness {
                    out.push(RESET_NOTIFICATION_STRATEGY);
                    out.push(LOSE_CONTEXT_ON_RESET);
                    robust_flag = true;
                }
            },
        }
        proof {
            assert(out@ =~= s1 + spec_robustness_segment(egl_version, ext, robustness).0);
            assert(robust_flag == spec_robustness_segment(egl_version, ext, robustness).1);
        }
        let ghost s2 = out@;

        if debug && version_at_least(egl_version, 1, 5) {
            out.push(CONTEXT_OPENGL_DEBUG);
            out.push(1);
        }
        proof {
            assert(out@ =~= s2 + (if debug && spec_version_at_least(egl_version, 1, 5) {
                seq![CONTEXT_OPENGL_DEBUG, 1i32]
            } else {
                seq![]
            }));
        }
        let ghost s3 = out@;

        // Some backends advertise the modern path yet reject the flags
        // attribute, so it is only present when a flag is raised.
        if robust_flag {
            out.push(CONTEXT_FLAGS);
            out.push(ROBUST_ACCESS_FLAG);
        }
        proof {
            assert(out@ =~= s3 + (if spec_robustness_segment(egl_version, ext, robustness).1 {
                seq![CONTEXT_FLAGS, ROBUST_ACCESS_FLAG]
            } else {
                seq![]
            }));
        }
    } else {
        // No legacy path can express robustness; a required policy must
        // fail rather than be silently dropped.
        match robustness {
            Robustness::RobustNoResetNotification | Robustness::RobustLoseContextOnReset => {
                return Err(CreationError::RobustnessNotSupported);
            },
            _ => {},
        }
        if version_at_least(egl_version, 1, 3) && api == Api::OpenGlEs {
            out.push(CONTEXT_MAJOR_VERSION);
            out.push(version.0 as i32);
        }
    }

    out.push(ATTRIB_NONE);
    proof {
        assert(out@ =~= spec_context_attributes(
            egl_version,
            ext,
            api,
            version,
            debug,
            robustness,
        ));
    }
    Ok(out)
}

/// Whether one creation attempt for `(api, version)` succeeds against the
/// backend: the robustness policy can be expressed and the backend
/// accepts the version.
pub open spec fn spec_attempt_succeeds(
    b: Backend,
    egl_version: (i32, i32),
    ext: DisplayExtensions,
    api: Api,
    version: (u8, u8),
    robustness: Robustness,
) -> bool {
    !spec_robustness_refused(egl_version, ext, api, robustness) && b.supports_creation(
        api,
        version,
    )
}

/// Attempt to create a context for one candidate version.
///
/// A bad-match or bad-attribute answer from the backend means this
/// version is refused and surfaces as a version-not-supported error, which
/// drives the caller's fallback cascade; any other backend error would be
/// a violation of the creation protocol itself and aborts at the
/// foreign-function edge, outside this model.
pub fn create_context(
    b: &mut Backend,
    display: u64,
    egl_version: (i32, i32),
    extensions: DisplayExtensions,
    api: Api,
    version: (u8, u8),
    config_id: u64,
    gl_debug: bool,
    gl_robustness: Robustness,
    share: u64,
) -> (r: Result<u64, CreationError>)
    requires
        old(b).wf(),
        old(b).next_handle < u64::MAX,
    ensures
        final(b).wf(),
        final(b).only_log_and_handles_changed(*old(b)),
        final(b).next_handle >= old(b).next_handle,
        spec_robustness_refused(egl_version, extensions, api, gl_robustness) ==> r == Err::<
            u64,
            CreationError,
        >(CreationError::RobustnessNotSupported) && *final(b) == *old(b),
        !spec_robustness_refused(egl_version, extensions, api, gl_robustness) ==> final(b).log@
            == old(b).log@.push(
            BackendCall::CreateContext { config: config_id, major: version.0, minor: version.1 },
        ) && match r {
            Ok(h) => {
                &&& old(b).supports_creation(api, version)
                &&& h == old(b).next_handle
                &&& h != crate::backend::NO_CONTEXT
                &&& final(b).next_handle == old(b).next_handle + 1
            },
            Err(e) => {
                &&& !old(b).supports_creation(api, version)
                &&& e == CreationError::OpenGlVersionNotSupported
                &&& final(b).next_handle == old(b).next_handle
            },
        },
{
    let attributes = match build_context_attributes(
        egl_version,
        extensions,
        api,
        version,
        gl_debug,
        gl_robustness,
    ) {
        Ok(attributes) => attributes,
        Err(e) => {
            return Err(e);
        },
    };

    match b.create_context(config_id, api, version, &attributes) {
        Some(handle) => Ok(handle),
        None => Err(CreationError::OpenGlVersionNotSupported),
    }
}

} // verus!
