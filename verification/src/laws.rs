//! The load-bearing properties of the protocol, stated and proved over
//! the same specification functions the executable contracts use.

use vstd::prelude::*;

use crate::backend::{Backend, BackendCall, ConfigCaps, CurrentTuple, NO_CONTEXT, NO_SURFACE,
    spec_version_at_least};
use crate::egl;
use crate::egl::spec_surface_or_none;
use crate::guard::{MakeCurrentGuard, spec_restore_tuple};
use crate::negotiate::spec_bind_plan;
use crate::select::{
    lemma_candidates_complete, lemma_candidates_sound, spec_candidates, spec_config_acceptable,
    spec_descriptor_error, spec_interval_range, spec_pixel_format,
};
use crate::{Api, CreationError, GlRequest, PixelFormatRequirements, spec_is_power_of_two};

verus! {

/// Selection never rounds a requested sample count. Every configuration
/// selection can return for requirements with `multisampling = Some(n)`
/// resolves to exactly `Some(n)` — to no multisampling when `n` is zero
/// or one, a single sample being no multisampling at all — and on a table
/// with no exact match selection has no candidates, so it must fail with
/// no available pixel format.
pub proof fn lemma_multisampling_never_rounded(
    configs: Seq<ConfigCaps>,
    n: u16,
    desired_interval: i32,
)
    ensures
        forall|i: int|
            0 <= i < spec_candidates(configs, Some(n), desired_interval).len()
                ==> spec_pixel_format(
                #[trigger] spec_candidates(configs, Some(n), desired_interval)[i],
            ).multisampling == if n <= 1 {
                None::<u16>
            } else {
                Some(n)
            },
        (forall|i: int|
            0 <= i < configs.len() ==> !spec_config_acceptable(
                #[trigger] configs[i],
                Some(n),
                desired_interval,
            )) ==> spec_candidates(configs, Some(n), desired_interval).len() == 0,
{
    lemma_candidates_sound(configs, Some(n), desired_interval);
    lemma_candidates_complete(configs, Some(n), desired_interval);
}

/// Every configuration selection can return supports the swap interval of
/// the vsync mode used during selection: the requested interval lies
/// within the candidate's inclusive interval bounds.
pub proof fn lemma_selected_interval_in_range(
    configs: Seq<ConfigCaps>,
    multisampling: Option<u16>,
    desired_interval: i32,
)
    ensures
        forall|i: int|
            0 <= i < spec_candidates(configs, multisampling, desired_interval).len() ==> {
                let range = spec_interval_range(
                    #[trigger] spec_candidates(configs, multisampling, desired_interval)[i],
                );
                range.min <= desired_interval <= range.max
            },
{
    lemma_candidates_sound(configs, multisampling, desired_interval);
}

/// Making a context current and then not current, on the same thread,
/// leaves it not current. `mid` is the backend state the successful
/// make-current leaves, and `post` the state the successful release
/// leaves; the release call is owed on `mid` because the context is
/// active there. The resolved pixel format cannot change along the way:
/// both transitions leave the context value itself untouched.
pub proof fn lemma_make_current_then_not_current(
    c: egl::Context,
    pre: Backend,
    mid: Backend,
    post: Backend,
)
    requires
        c.wf(),
        mid.current == (CurrentTuple {
            display: c.display,
            draw: spec_surface_or_none(c.surface),
            read: spec_surface_or_none(c.surface),
            context: c.context,
        }),
        mid.only_log_and_current_changed(pre),
        post.current == (CurrentTuple {
            display: c.display,
            draw: NO_SURFACE,
            read: NO_SURFACE,
            context: NO_CONTEXT,
        }),
        post.only_log_and_current_changed(mid),
    ensures
        c.spec_is_current(mid),
        c.spec_is_active(mid),
        !c.spec_is_current(post),
{
}

/// Scoped activation restores the previous context: with context `a`
/// current, acquiring a guard for any other tuple and releasing it leaves
/// `a` current again, because the guard saved `a`'s tuple and the release
/// makes exactly that tuple current.
pub proof fn lemma_guard_restores_previous(
    a: egl::Context,
    pre: Backend,
    g: MakeCurrentGuard,
    post: Backend,
)
    requires
        a.wf(),
        pre.current == (CurrentTuple {
            display: a.display,
            draw: spec_surface_or_none(a.surface),
            read: spec_surface_or_none(a.surface),
            context: a.context,
        }),
        g.saved == pre.current,
        !g.invalidated,
        post.current == spec_restore_tuple(g),
    ensures
        a.spec_is_current(post),
        post.current == pre.current,
{
}

/// Requesting the latest version on a backend that predates extended
/// creation binds the embedded API without pinning a version, whatever
/// the bind calls would have answered; the finished context is therefore
/// an embedded-API context, never a desktop one.
pub proof fn lemma_latest_on_legacy_backend_is_embedded(
    egl_version: (i32, i32),
    gl_ok: bool,
    es_ok: bool,
)
    requires
        !spec_version_at_least(egl_version, 1, 4),
    ensures
        spec_bind_plan(GlRequest::Latest, egl_version, gl_ok, es_ok) == Ok::<
            (Option<(u8, u8)>, Api),
            CreationError,
        >((None, Api::OpenGlEs)),
{
}

/// A requested sample count that is neither zero nor a power of two makes
/// the descriptor builder fail with no available pixel format, whatever
/// else the requirements hold; selection then returns that error with the
/// backend left entirely untouched, so the rejection precedes every
/// native call.
pub proof fn lemma_invalid_multisampling_rejected(
    egl_version: (i32, i32),
    api: Api,
    version: Option<(u8, u8)>,
    reqs: PixelFormatRequirements,
)
    requires
        reqs.multisampling matches Some(n) && n != 0 && !spec_is_power_of_two(n),
    ensures
        spec_descriptor_error(egl_version, api, version, reqs) == Some(
            CreationError::NoAvailablePixelFormat,
        ),
{
}

/// At most one context is current on the thread at any instant: two
/// contexts with distinct native handles can never both be current,
/// because being current is agreement with the one current tuple.
pub proof fn lemma_at_most_one_current(a: egl::Context, c: egl::Context, b: Backend)
    requires
        a.context != c.context,
    ensures
        !(a.spec_is_current(b) && c.spec_is_current(b)),
{
}

/// Teardown always issues activate, flush, destroy-context and
/// destroy-surface, in that order and adjacent to each other, whether or
/// not the context was current when destruction began: the log a
/// successful teardown leaves holds exactly that sequence right after the
/// calls that preceded it.
pub proof fn lemma_destroy_call_order(
    c: egl::Context,
    pre_log: Seq<BackendCall>,
    post_log: Seq<BackendCall>,
    restore: Seq<BackendCall>,
)
    requires
        post_log == pre_log + seq![
            BackendCall::MakeCurrent {
                display: c.display,
                draw: spec_surface_or_none(c.surface),
                read: spec_surface_or_none(c.surface),
                context: c.context,
            },
            BackendCall::Finish,
            BackendCall::DestroyContext { display: c.display, context: c.context },
            BackendCall::DestroySurface {
                display: c.display,
                surface: spec_surface_or_none(c.surface),
            },
        ] + restore,
    ensures
        post_log[pre_log.len() as int] == (BackendCall::MakeCurrent {
            display: c.display,
            draw: spec_surface_or_none(c.surface),
            read: spec_surface_or_none(c.surface),
            context: c.context,
        }),
        post_log[pre_log.len() as int + 1] == BackendCall::Finish,
        post_log[pre_log.len() as int + 2] == (BackendCall::DestroyContext {
            display: c.display,
            context: c.context,
        }),
        post_log[pre_log.len() as int + 3] == (BackendCall::DestroySurface {
            display: c.display,
            surface: spec_surface_or_none(c.surface),
        }),
{
}

} // verus!
