//! The public context with its compile-time current/not-current state.
//!
//! The lifecycle tag is a zero-sized type parameter: a `NotCurrent` context
//! is freely movable across threads, while a `PossiblyCurrent` one is
//! pinned to whichever thread last made it current. The tag is
//! load-bearing for thread safety and costs nothing at run time; the two
//! escape-hatch transitions exist only to reconcile the tag with backend
//! state observed out of band, and perform no native call.

use core::marker::PhantomData;

use vstd::prelude::*;

use crate::backend::{Backend, BackendCall, CurrentTuple, NO_CONTEXT, NO_SURFACE};
use crate::egl;
use crate::egl::{NativeDisplay, SurfaceType, spec_restored_current, spec_surface_or_none};
use crate::{Api, ContextBuilder, ContextError, CreationError, VSyncError, VSyncMode};

verus! {

/// The state tag of a context that might be current on some thread.
#[derive(Debug, Clone, Copy)]
pub struct PossiblyCurrent {}

/// The state tag of a context that is not current on any thread.
#[derive(Debug, Clone, Copy)]
pub enum NotCurrent {
    /// The tag itself; it carries no data.
    NotCurrent,
}

/// The two lifecycle state tags a context can carry.
pub trait ContextCurrentState {}

impl ContextCurrentState for PossiblyCurrent {}

impl ContextCurrentState for NotCurrent {}

/// A rendering context, tagged with its lifecycle state.
#[derive(Debug)]
pub struct Context<T: ContextCurrentState> {
    /// The underlying native context.
    pub context: egl::Context,
    /// The zero-sized lifecycle tag.
    pub phantom: PhantomData<T>,
}

impl<T: ContextCurrentState> Context<T> {
    /// Make this context current on the calling thread. On failure the
    /// context is handed back unchanged together with the error, and it
    /// logically stays not current.
    pub fn make_current(self, b: &mut Backend) -> (r: Result<
        Context<PossiblyCurrent>,
        (Context<T>, ContextError),
    >)
        ensures
            final(b).log@ == old(b).log@.push(
                BackendCall::MakeCurrent {
                    display: self.context.display,
                    draw: spec_surface_or_none(self.context.surface),
                    read: spec_surface_or_none(self.context.surface),
                    context: self.context.context,
                },
            ),
            match r {
                Ok(c) => {
                    &&& !old(b).context_lost
                    &&& c.context == self.context
                    &&& final(b).current == (CurrentTuple {
                        display: self.context.display,
                        draw: spec_surface_or_none(self.context.surface),
                        read: spec_surface_or_none(self.context.surface),
                        context: self.context.context,
                    })
                    &&& final(b).only_log_and_current_changed(*old(b))
                },
                Err((c, e)) => {
                    &&& old(b).context_lost
                    &&& c.context == self.context
                    &&& e == ContextError::ContextLost
                    &&& final(b).only_log_changed(*old(b))
                },
            },
    {
        match self.context.make_current(b) {
            Ok(()) => Ok(Context { context: self.context, phantom: PhantomData }),
            Err(err) => Err((Context { context: self.context, phantom: PhantomData }, err)),
        }
    }

    /// Release this context from the calling thread. A context that is
    /// not part of the current tuple needs, and gets, no native call.
    pub fn make_not_current(self, b: &mut Backend) -> (r: Result<
        Context<NotCurrent>,
        (Context<T>, ContextError),
    >)
        ensures
            !self.context.spec_is_active(*old(b)) ==> *final(b) == *old(b),
            self.context.spec_is_active(*old(b)) ==> final(b).log@ == old(b).log@.push(
                BackendCall::MakeCurrent {
                    display: self.context.display,
                    draw: NO_SURFACE,
                    read: NO_SURFACE,
                    context: NO_CONTEXT,
                },
            ),
            match r {
                Ok(c) => {
                    &&& c.context == self.context
                    &&& (self.context.spec_is_active(*old(b)) ==> !old(b).context_lost && final(b).current == (CurrentTuple {
                        display: self.context.display,
                        draw: NO_SURFACE,
                        read: NO_SURFACE,
                        context: NO_CONTEXT,
                    }) && final(b).only_log_and_current_changed(*old(b)))
                },
                Err((c, e)) => {
                    &&& self.context.spec_is_active(*old(b))
                    &&& old(b).context_lost
                    &&& c.context == self.context
                    &&& e == ContextError::ContextLost
                    &&& final(b).only_log_changed(*old(b))
                },
            },
    {
        match self.context.make_not_current(b) {
            Ok(()) => Ok(Context { context: self.context, phantom: PhantomData }),
            Err(err) => Err((Context { context: self.context, phantom: PhantomData }, err)),
        }
    }

    /// Re-tag this context as not current, for callers that observed the
    /// true backend state out of band. Performs no native call.
    pub fn treat_as_not_current(self) -> (r: Context<NotCurrent>)
        ensures
            r.context == self.context,
    {
        Context { context: self.context, phantom: PhantomData }
    }

    /// Re-tag this context as possibly current, for callers that observed
    /// the true backend state out of band. Performs no native call.
    pub fn treat_as_current(self) -> (r: Context<PossiblyCurrent>)
        ensures
            r.context == self.context,
    {
        Context { context: self.context, phantom: PhantomData }
    }

    /// Whether this context is the one current on the calling thread. A
    /// cheap query, usable in either state without a transition.
    pub fn is_current(&self, b: &Backend) -> (r: bool)
        ensures
            r == self.context.spec_is_current(*b),
    {
        self.context.is_current(b)
    }

    /// The API the context was created for.
    pub fn get_api(&self) -> (r: Api)
        ensures
            r == self.context.api,
    {
        self.context.get_api()
    }

    /// Whether the chosen configuration supports the swap interval this
    /// vsync mode asks for.
    pub fn supports_vsync_mode(&self, mode: VSyncMode) -> (r: bool)
        ensures
            r == (self.context.swap_interval_range.min <= crate::spec_swap_interval(mode)
                && crate::spec_swap_interval(mode) <= self.context.swap_interval_range.max),
    {
        self.context.supports_vsync_mode(mode)
    }

    /// Change the vsync mode through a scoped activation, restoring
    /// whatever was current before. Fails exactly when the backend
    /// reports the context lost.
    pub fn set_vsync_mode(&self, b: &mut Backend, mode: VSyncMode) -> (r: Result<(), VSyncError>)
        ensures
            old(b).context_lost ==> r == Err::<(), VSyncError>(
                VSyncError::ContextError(ContextError::ContextLost),
            ) && final(b).only_log_changed(*old(b)),
            !old(b).context_lost ==> r is Ok && final(b).current == spec_restored_current(
                old(b).current,
                self.context.display,
            ) && final(b).only_log_and_current_changed(*old(b)) && final(b).log@ == old(
                b,
            ).log@.push(
                BackendCall::MakeCurrent {
                    display: self.context.display,
                    draw: spec_surface_or_none(self.context.surface),
                    read: spec_surface_or_none(self.context.surface),
                    context: self.context.context,
                },
            ).push(
                BackendCall::SwapInterval {
                    display: self.context.display,
                    interval: crate::spec_swap_interval(mode),
                },
            ).push(
                BackendCall::MakeCurrent {
                    display: spec_restored_current(
                        old(b).current,
                        self.context.display,
                    ).display,
                    draw: old(b).current.draw,
                    read: old(b).current.read,
                    context: old(b).current.context,
                },
            ),
    {
        self.context.set_vsync_mode(b, mode)
    }

    /// Tear the context down: activate it, flush its pending work, then
    /// destroy the native context and surface, restoring the
    /// previously-current tuple unless the destroyed handles are part of
    /// it.
    pub fn destroy(self, b: &mut Backend) -> (r: Result<(), ContextError>)
        ensures
            old(b).context_lost ==> r == Err::<(), ContextError>(ContextError::ContextLost)
                && final(b).only_log_changed(*old(b)),
            !old(b).context_lost ==> {
                let s = spec_surface_or_none(self.context.surface);
                let invalidated = old(b).current.draw == s || old(b).current.read == s || old(b).current.context == self.context.context;
                &&& r is Ok
                &&& final(b).only_log_and_current_changed(*old(b))
                &&& final(b).log@ == old(b).log@ + seq![
                    BackendCall::MakeCurrent {
                        display: self.context.display,
                        draw: s,
                        read: s,
                        context: self.context.context,
                    },
                    BackendCall::Finish,
                    BackendCall::DestroyContext {
                        display: self.context.display,
                        context: self.context.context,
                    },
                    BackendCall::DestroySurface { display: self.context.display, surface: s },
                ] + if invalidated {
                    seq![]
                } else {
                    seq![
                        BackendCall::MakeCurrent {
                            display: spec_restored_current(
                                old(b).current,
                                self.context.display,
                            ).display,
                            draw: old(b).current.draw,
                            read: old(b).current.read,
                            context: old(b).current.context,
                        },
                    ]
                }
            },
    {
        self.context.destroy(b)
    }
}

impl Context<PossiblyCurrent> {
    /// Look up a rendering entry point by name; only a context that may
    /// be current can hand out entry points, since they are only valid on
    /// the thread the context is current on.
    pub fn get_proc_address(&self, b: &Backend, addr: &str) -> (r: u64)
        ensures
            r == b.proc_address,
    {
        self.context.get_proc_address(b, addr)
    }
}

impl ContextBuilder {
    /// Share the display lists with an existing context, whatever its
    /// lifecycle state.
    pub fn with_shared_lists<T2: ContextCurrentState>(self, other: &Context<T2>) -> (r:
        ContextBuilder)
        ensures
            r.gl_attr.sharing == Some(other.context.context),
            r.gl_attr.version == self.gl_attr.version,
            r.gl_attr.profile == self.gl_attr.profile,
            r.gl_attr.debug == self.gl_attr.debug,
            r.gl_attr.robustness == self.gl_attr.robustness,
            r.gl_attr.vsync == self.gl_attr.vsync,
            r.pf_reqs == self.pf_reqs,
    {
        let handle = other.context.raw_handle();
        ContextBuilder { gl_attr: self.gl_attr.set_sharing(Some(handle)), pf_reqs: self.pf_reqs }
    }

    /// Build a headless context against an offscreen buffer of the given
    /// size. The first acceptable configuration wins the tie-break, so
    /// every stage is decided by the backend alone: each stage's failure
    /// is pinned, and success is owed whenever the backend accepts every
    /// stage.
    #[verifier::rlimit(100)]
    #[verifier::spinoff_prover]
    pub fn build_headless(self, b: &mut Backend, size: (u32, u32)) -> (r: Result<
        Context<NotCurrent>,
        CreationError,
    >)
        requires
            old(b).wf(),
            old(b).next_handle < 0xffff_ffff_ffff_0000u64,
            self.pf_reqs.x11_visual_xid matches Some(xid) ==> xid <= 0x7fff_ffff,
            size.0 <= 0x7fff_ffff,
            size.1 <= 0x7fff_ffff,
        ensures
            final(b).wf(),
            old(b).display_handle == crate::backend::NO_DISPLAY ==> r == Err::<
                Context<NotCurrent>,
                CreationError,
            >(CreationError::OsError(crate::OsFailure::GetDisplay)),
            old(b).display_handle != crate::backend::NO_DISPLAY && !old(b).init_ok ==> r == Err::<
                Context<NotCurrent>,
                CreationError,
            >(CreationError::OsError(crate::OsFailure::Initialize)),
            old(b).display_handle != crate::backend::NO_DISPLAY && old(b).init_ok
                ==> (crate::negotiate::spec_bind_plan(
                self.gl_attr.version,
                old(b).version,
                old(b).gl_bindable,
                old(b).es_bindable,
            ) matches Err(e) ==> r == Err::<Context<NotCurrent>, CreationError>(e)),
            ({
                let plan = crate::negotiate::spec_bind_plan(
                    self.gl_attr.version,
                    old(b).version,
                    old(b).gl_bindable,
                    old(b).es_bindable,
                );
                &&& old(b).display_handle != crate::backend::NO_DISPLAY
                &&& old(b).init_ok
                &&& plan matches Ok(p)
                &&& crate::select::spec_descriptor_error(
                    old(b).version,
                    p.1,
                    p.0,
                    self.pf_reqs,
                ) is None
                &&& old(b).choose_config_ok
                &&& crate::select::spec_candidates(
                    old(b).configs@,
                    self.pf_reqs.multisampling,
                    crate::spec_swap_interval(self.gl_attr.vsync),
                ).len() > 0
                &&& egl::spec_any_attempt_succeeds(
                    *old(b),
                    old(b).version,
                    if crate::backend::spec_version_at_least(old(b).version, 1, 2) {
                        old(b).display_extensions
                    } else {
                        crate::backend::DisplayExtensions {
                            khr_create_context: false,
                            ext_create_context_robustness: false,
                            khr_create_context_no_error: false,
                            khr_surfaceless_context: false,
                        }
                    },
                    p.1,
                    self.gl_attr.robustness,
                    egl::spec_candidate_versions(p.1, p.0),
                )
                &&& old(b).pbuffer_surface_ok
                &&& !old(b).context_lost
            }) ==> r is Ok,
            match r {
                Ok(c) => {
                    &&& c.context.wf()
                    &&& (c.context.surface matches Some(s) && s != crate::backend::NO_SURFACE)
                    &&& match crate::negotiate::spec_bind_plan(
                        self.gl_attr.version,
                        old(b).version,
                        old(b).gl_bindable,
                        old(b).es_bindable,
                    ) {
                        Ok((_, api)) => c.context.api == api,
                        Err(_) => false,
                    }
                },
                Err(_) => true,
            },
    {
        let ContextBuilder { pf_reqs, gl_attr } = self;
        let selector = |ids: Vec<u64>, _display: u64| -> (chosen: Result<u64, ()>)
            ensures
                (match chosen {
                    Ok(id) => ids@.len() > 0 && id == ids@[0],
                    Err(()) => ids@.len() == 0,
                }),
            {
                if ids.len() > 0 {
                    Ok(ids[0])
                } else {
                    Err(())
                }
            };
        let creation = egl::Context::new(
            b,
            &pf_reqs,
            &gl_attr,
            NativeDisplay::Other(None),
            SurfaceType::PBuffer,
            selector,
        );
        let prototype = match creation {
            Ok(prototype) => prototype,
            Err(e) => {
                proof {
                    let pre = *old(b);
                    let plan = crate::negotiate::spec_bind_plan(
                        gl_attr.version,
                        pre.version,
                        pre.gl_bindable,
                        pre.es_bindable,
                    );
                    let ghost failed = Err::<egl::ContextPrototype, CreationError>(e);
                    if pre.display_handle != crate::backend::NO_DISPLAY && pre.init_ok && (
                    plan matches Ok(p) && crate::select::spec_descriptor_error(
                        pre.version,
                        p.1,
                        p.0,
                        pf_reqs,
                    ) is None) && pre.choose_config_ok {
                        let cands = crate::select::spec_candidates(
                            pre.configs@,
                            pf_reqs.multisampling,
                            crate::spec_swap_interval(gl_attr.vsync),
                        );
                        if cands.len() > 0 {
                            // The tie-break is the verified first-candidate
                            // closure, so a selection failure is impossible.
                            let (ids, ret) = choose|ids: Vec<u64>, ret: Result<u64, ()>|
                                {
                                    &&& ids@ == cands.map_values(
                                        |c: crate::backend::ConfigCaps| c.id,
                                    )
                                    &&& #[trigger] selector.ensures((ids, pre.display_handle), ret)
                                    &&& match ret {
                                        Ok(chosen) => match crate::backend::spec_find_config_in(
                                            cands,
                                            chosen,
                                        ) {
                                            Some(c) => failed matches Ok(proto)
                                                && proto.config_id == chosen
                                                && proto.pixel_format
                                                == crate::select::spec_pixel_format(c)
                                                && proto.swap_interval_range
                                                == crate::select::spec_interval_range(c),
                                            None => failed == Err::<
                                                egl::ContextPrototype,
                                                CreationError,
                                            >(CreationError::NoAvailablePixelFormat),
                                        },
                                        Err(()) => failed == Err::<
                                            egl::ContextPrototype,
                                            CreationError,
                                        >(CreationError::NoAvailablePixelFormat),
                                    }
                                };
                            match ret {
                                Ok(chosen) => {
                                    assert(chosen == cands[0].id);
                                    assert(crate::backend::spec_find_config_in(cands, chosen)
                                        == Some(cands[0]));
                                    assert(false);
                                },
                                Err(()) => {
                                    assert(ids@.len() == cands.len());
                                    assert(false);
                                },
                            }
                        }
                    }
                }
                return Err(e);
            },
        };
        let ghost mid = *b;
        let finished = prototype.finish_pbuffer(b, size);
        proof {
            let pre = *old(b);
            let plan = crate::negotiate::spec_bind_plan(
                gl_attr.version,
                pre.version,
                pre.gl_bindable,
                pre.es_bindable,
            );
            if plan matches Ok(p) {
                egl::lemma_any_attempt_agree(
                    mid,
                    pre,
                    prototype.egl_version,
                    prototype.extensions,
                    prototype.api,
                    prototype.opengl.robustness,
                    egl::spec_candidate_versions(prototype.api, prototype.version),
                );
            }
        }
        match finished {
            Ok(context) => Ok(Context { context, phantom: PhantomData }),
            Err(e) => Err(e),
        }
    }
}

} // verus!
