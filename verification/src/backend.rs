//! Model of the native EGL-style backend.
//!
//! The real backend is a dynamically loaded C library; its entry points are
//! out of reach of verification. This module models everything the library
//! observes of it as plain state: the backend's version and extensions, its
//! configuration table, which context creations it accepts, and the tuple
//! that is current on the calling thread. Every stateful entry point appends
//! a record to an append-only call log, so that contracts can pin down not
//! only results but the order of the native calls a protocol step issues.
//!
//! The model has a single failure mode for make-current and buffer-swap
//! calls, context loss, driven by the `context_lost` flag: in the real
//! protocol every other error code from those calls is a fatal invariant
//! violation that aborts the process at the foreign-function edge and is
//! therefore never seen by this library.

use vstd::prelude::*;

verus! {

/// The null context handle.
pub const NO_CONTEXT: u64 = 0;
/// The null surface handle.
pub const NO_SURFACE: u64 = 0;
/// The null display handle.
pub const NO_DISPLAY: u64 = 0;

/// A platform-tagged display acquisition request, as handed to the backend.
#[derive(Debug, Clone, Copy, PartialEq, Eq, Structural)]
pub enum DisplayRequest {
    /// Acquire through the versioned platform-display entry point.
    Platform { platform: u32, native: u64 },
    /// Acquire through the extension platform-display entry point.
    PlatformExt { platform: u32, native: u64 },
    /// Acquire through the legacy display entry point.
    Legacy { native: u64 },
}

/// One record of the backend call log, carrying the payloads the call
/// handed to the backend.
#[derive(Debug, Clone, PartialEq, Eq)]
pub enum BackendCall {
    GetDisplay { request: DisplayRequest },
    Initialize,
    BindApi { api: crate::Api },
    ChooseConfig,
    CreateContext { config: u64, major: u8, minor: u8 },
    CreateWindowSurface { config: u64 },
    CreatePbufferSurface { config: u64, width: i32, height: i32 },
    MakeCurrent { display: u64, draw: u64, read: u64, context: u64 },
    SwapInterval { display: u64, interval: i32 },
    SwapBuffers { surface: u64 },
    SwapBuffersWithDamage { surface: u64, rects: Vec<i32>, rect_count: usize },
    Finish,
    DestroyContext { display: u64, context: u64 },
    DestroySurface { display: u64, surface: u64 },
}

/// The (display, draw surface, read surface, context) tuple that is current
/// on the modeled thread.
#[derive(Debug, Clone, Copy, PartialEq, Eq, Structural)]
pub struct CurrentTuple {
    pub display: u64,
    pub draw: u64,
    pub read: u64,
    pub context: u64,
}

impl CurrentTuple {
    /// The tuple of a thread with nothing current.
    pub fn nothing() -> (r: CurrentTuple)
        ensures
            r == (CurrentTuple {
                display: NO_DISPLAY,
                draw: NO_SURFACE,
                read: NO_SURFACE,
                context: NO_CONTEXT,
            }),
    {
        CurrentTuple { display: NO_DISPLAY, draw: NO_SURFACE, read: NO_SURFACE, context: NO_CONTEXT }
    }
}

/// The client extensions the backend advertises before any display is
/// initialized, reduced to the ones display acquisition consults.
#[derive(Debug, Clone, Copy, PartialEq, Eq, Structural, Default)]
pub struct ClientExtensions {
    pub khr_platform_x11: bool,
    pub ext_platform_x11: bool,
    pub khr_platform_gbm: bool,
    pub mesa_platform_gbm: bool,
    pub khr_platform_wayland: bool,
    pub ext_platform_wayland: bool,
    pub khr_platform_android: bool,
    pub ext_platform_device: bool,
}

/// The per-display extensions the backend advertises once initialized,
/// reduced to the ones context creation consults.
#[derive(Debug, Clone, Copy, PartialEq, Eq, Structural, Default)]
pub struct DisplayExtensions {
    pub khr_create_context: bool,
    pub ext_create_context_robustness: bool,
    pub khr_create_context_no_error: bool,
    pub khr_surfaceless_context: bool,
}

impl DisplayExtensions {
    /// No extensions at all, the view a pre-1.2 backend presents.
    pub fn none() -> (r: DisplayExtensions)
        ensures
            r == (DisplayExtensions {
                khr_create_context: false,
                ext_create_context_robustness: false,
                khr_create_context_no_error: false,
                khr_surfaceless_context: false,
            }),
    {
        DisplayExtensions {
            khr_create_context: false,
            ext_create_context_robustness: false,
            khr_create_context_no_error: false,
            khr_surfaceless_context: false,
        }
    }
}

/// The concrete capabilities of one backend configuration, as attribute
/// queries report them.
#[derive(Debug, Clone, Copy, PartialEq, Eq, Structural)]
pub struct ConfigCaps {
    /// Opaque identifier into the backend's configuration table.
    pub id: u64,
    /// Whether the configuration is marked with the slow-config caveat.
    pub slow: bool,
    pub red_bits: u8,
    pub green_bits: u8,
    pub blue_bits: u8,
    pub alpha_bits: u8,
    pub depth_bits: u8,
    pub stencil_bits: u8,
    /// Samples per pixel; 0 or 1 both mean no multisampling.
    pub samples: u16,
    pub min_swap_interval: i32,
    pub max_swap_interval: i32,
    pub native_visual_id: i32,
}

impl ConfigCaps {
    /// The three colour channels together fit the 8-bit colour count a
    /// resolved pixel format reports.
    pub open spec fn wf(&self) -> bool {
        self.red_bits + self.green_bits + self.blue_bits <= 255
    }
}

/// The modeled native backend: its static capabilities, the scripted
/// outcomes of its fallible calls, the current tuple of the modeled thread,
/// and the log of the stateful calls issued so far.
#[derive(Debug)]
pub struct Backend {
    /// Client extensions, consulted before any display exists.
    pub client_extensions: ClientExtensions,
    /// Whether the versioned platform-display entry point was resolved.
    pub platform_display_loaded: bool,
    /// Whether the extension platform-display entry point was resolved.
    pub platform_display_ext_loaded: bool,
    /// The one display the backend hands out; `NO_DISPLAY` when display
    /// acquisition fails. Repeated acquisition returns the same handle.
    pub display_handle: u64,
    /// Whether display initialization succeeds.
    pub init_ok: bool,
    /// The (major, minor) version initialization reports.
    pub version: (i32, i32),
    /// Extensions of the initialized display.
    pub display_extensions: DisplayExtensions,
    /// Whether the desktop API can be bound.
    pub gl_bindable: bool,
    /// Whether the embedded API can be bound.
    pub es_bindable: bool,
    /// The configuration table.
    pub configs: Vec<ConfigCaps>,
    /// Whether configuration enumeration succeeds at all.
    pub choose_config_ok: bool,
    /// Highest desktop context version creation accepts; `None` when every
    /// desktop creation attempt is refused.
    pub max_gl_version: Option<(u8, u8)>,
    /// Highest embedded context version creation accepts.
    pub max_es_version: Option<(u8, u8)>,
    /// Whether window surface creation succeeds.
    pub window_surface_ok: bool,
    /// Whether offscreen-buffer surface creation succeeds.
    pub pbuffer_surface_ok: bool,
    /// Whether the damage-aware swap entry point was resolved.
    pub swap_with_damage_loaded: bool,
    /// Whether surfaces report their buffer age.
    pub buffer_age_supported: bool,
    /// The buffer age reported when supported.
    pub buffer_age_value: i32,
    /// The address the generic entry-point lookup hands out.
    pub proc_address: u64,
    /// When set, make-current and buffer-swap calls fail with context loss.
    pub context_lost: bool,
    /// The tuple current on the modeled thread.
    pub current: CurrentTuple,
    /// Source of fresh context and surface handles; never zero.
    pub next_handle: u64,
    /// Append-only log of the stateful calls issued.
    pub log: Vec<BackendCall>,
}

impl Backend {
    /// Handles stay allocatable and distinguishable from the null handles,
    /// and the configuration table is well formed with distinct identifiers.
    pub open spec fn wf(&self) -> bool {
        &&& 1 <= self.next_handle
        &&& forall|i: int| 0 <= i < self.configs@.len() ==> (#[trigger] self.configs@[i]).wf()
        &&& distinct_config_ids(self.configs@)
    }

    /// Everything but the call log is as in `pre`.
    pub open spec fn only_log_changed(&self, pre: Backend) -> bool {
        *self == (Backend { log: self.log, ..pre })
    }

    /// Everything but the call log and the current tuple is as in `pre`.
    pub open spec fn only_log_and_current_changed(&self, pre: Backend) -> bool {
        *self == (Backend { log: self.log, current: self.current, ..pre })
    }

    /// Everything but the call log and the handle counter is as in `pre`.
    pub open spec fn only_log_and_handles_changed(&self, pre: Backend) -> bool {
        *self == (Backend { log: self.log, next_handle: self.next_handle, ..pre })
    }

    /// The identifiers of the configuration table, in table order.
    pub open spec fn spec_config_ids(&self) -> Seq<u64> {
        self.configs@.map_values(|c: ConfigCaps| c.id)
    }

    /// The capabilities recorded for `id`, if the table holds it.
    pub open spec fn spec_find_config(&self, id: u64) -> Option<ConfigCaps> {
        spec_find_config_in(self.configs@, id)
    }

    /// Acquire the display named by `request`. The backend returns the same
    /// handle for every request, or the null handle when acquisition fails.
    pub fn get_display(&mut self, request: DisplayRequest) -> (r: u64)
        ensures
            r == old(self).display_handle,
            final(self).only_log_changed(*old(self)),
            final(self).log@ == old(self).log@.push(BackendCall::GetDisplay { request }),
    {
        self.log.push(BackendCall::GetDisplay { request });
        self.display_handle
    }

    /// Initialize the display, learning the backend's version.
    pub fn initialize(&mut self, display: u64) -> (r: Option<(i32, i32)>)
        ensures
            r == if old(self).init_ok {
                Some(old(self).version)
            } else {
                None::<(i32, i32)>
            },
            final(self).only_log_changed(*old(self)),
            final(self).log@ == old(self).log@.push(BackendCall::Initialize),
    {
        self.log.push(BackendCall::Initialize);
        if self.init_ok {
            Some(self.version)
        } else {
            None
        }
    }

    /// Bind the rendering API subsequent calls work against.
    pub fn bind_api(&mut self, api: crate::Api) -> (r: bool)
        ensures
            r == match api {
                crate::Api::OpenGl => old(self).gl_bindable,
                crate::Api::OpenGlEs => old(self).es_bindable,
                crate::Api::WebGl => false,
            },
            final(self).only_log_changed(*old(self)),
            final(self).log@ == old(self).log@.push(BackendCall::BindApi { api }),
    {
        self.log.push(BackendCall::BindApi { api });
        match api {
            crate::Api::OpenGl => self.gl_bindable,
            crate::Api::OpenGlEs => self.es_bindable,
            crate::Api::WebGl => false,
        }
    }

    /// Enumerate the configurations matching an attribute descriptor.
    ///
    /// The model backend promises nothing about how the descriptor narrows
    /// the table: it may answer with every configuration it has. The
    /// selection algorithm therefore re-checks each requirement it depends
    /// on against the queried capabilities.
    pub fn choose_configs(&mut self, descriptor: &Vec<i32>) -> (r: Option<Vec<u64>>)
        ensures
            final(self).only_log_changed(*old(self)),
            final(self).log@ == old(self).log@.push(BackendCall::ChooseConfig),
            match r {
                Some(ids) => old(self).choose_config_ok && ids@ == old(self).spec_config_ids(),
                None => !old(self).choose_config_ok,
            },
    {
        self.log.push(BackendCall::ChooseConfig);
        if !self.choose_config_ok {
            return None;
        }
        let mut ids: Vec<u64> = Vec::new();
        let mut i: usize = 0;
        while i < self.configs.len()
            invariant
                0 <= i <= self.configs@.len(),
                ids@ == self.configs@.take(i as int).map_values(|c: ConfigCaps| c.id),
            decreases self.configs@.len() - i,
        {
            let id = self.configs[i].id;
            ids.push(id);
            proof {
                assert(self.configs@.take(i + 1) == self.configs@.take(i as int).push(
                    self.configs@[i as int],
                ));
            }
            i = i + 1;
        }
        proof {
            assert(self.configs@.take(self.configs@.len() as int) == self.configs@);
        }
        Some(ids)
    }

    /// Query the capabilities of one configuration.
    pub fn get_config_caps(&self, id: u64) -> (r: Option<ConfigCaps>)
        ensures
            r == self.spec_find_config(id),
    {
        let mut i: usize = 0;
        proof {
            assert(self.configs@.skip(0) =~= self.configs@);
        }
        while i < self.configs.len()
            invariant
                0 <= i <= self.configs@.len(),
                spec_find_config_in(self.configs@, id) == spec_find_config_in(
                    self.configs@.skip(i as int),
                    id,
                ),
            decreases self.configs@.len() - i,
        {
            proof {
                assert(self.configs@.skip(i as int)[0] == self.configs@[i as int]);
                assert(self.configs@.skip(i as int).skip(1) == self.configs@.skip(i + 1));
            }
            if self.configs[i].id == id {
                return Some(self.configs[i]);
            }
            i = i + 1;
        }
        proof {
            assert(self.configs@.skip(self.configs@.len() as int) =~= Seq::<ConfigCaps>::empty());
        }
        None
    }

    /// Whether creation of an `api` context at `version` succeeds.
    pub open spec fn supports_creation(&self, api: crate::Api, version: (u8, u8)) -> bool {
        match api {
            crate::Api::OpenGl => match self.max_gl_version {
                Some(m) => spec_version_le(version, m),
                None => false,
            },
            crate::Api::OpenGlEs => match self.max_es_version {
                Some(m) => spec_version_le(version, m),
                None => false,
            },
            crate::Api::WebGl => false,
        }
    }

    /// Create a context against `config` for the bound API at `version`,
    /// with the given creation attributes. Failure is the backend's
    /// bad-match answer: the version or attribute combination is refused.
    #[verifier::rlimit(50)]
    pub fn create_context(
        &mut self,
        config: u64,
        api: crate::Api,
        version: (u8, u8),
        attributes: &Vec<i32>,
    ) -> (r: Option<u64>)
        requires
            old(self).wf(),
            old(self).next_handle < u64::MAX,
        ensures
            final(self).wf(),
            final(self).log@ == old(self).log@.push(
                BackendCall::CreateContext { config, major: version.0, minor: version.1 },
            ),
            match r {
                Some(h) => {
                    &&& old(self).supports_creation(api, version)
                    &&& h == old(self).next_handle
                    &&& h != NO_CONTEXT
                    &&& final(self).next_handle == old(self).next_handle + 1
                    &&& final(self).only_log_and_handles_changed(*old(self))
                },
                None => {
                    &&& !old(self).supports_creation(api, version)
                    &&& final(self).only_log_changed(*old(self))
                },
            },
    {
        self.log.push(BackendCall::CreateContext { config, major: version.0, minor: version.1 });
        let supported = match api {
            crate::Api::OpenGl => match self.max_gl_version {
                Some(m) => version_le(version, m),
                None => false,
            },
            crate::Api::OpenGlEs => match self.max_es_version {
                Some(m) => version_le(version, m),
                None => false,
            },
            crate::Api::WebGl => false,
        };
        if supported {
            let h = self.next_handle;
            self.next_handle = self.next_handle + 1;
            Some(h)
        } else {
            None
        }
    }

    /// Create a surface bound to a native window.
    pub fn create_window_surface(&mut self, config: u64, native_window: u64) -> (r: u64)
        requires
            old(self).wf(),
            old(self).next_handle < u64::MAX,
        ensures
            final(self).wf(),
            final(self).log@ == old(self).log@.push(BackendCall::CreateWindowSurface { config }),
            if old(self).window_surface_ok {
                r == old(self).next_handle && r != NO_SURFACE && final(self).next_handle == old(
                    self,
                ).next_handle + 1 && final(self).only_log_and_handles_changed(*old(self))
            } else {
                r == NO_SURFACE && final(self).only_log_changed(*old(self))
            },
    {
        self.log.push(BackendCall::CreateWindowSurface { config });
        if self.window_surface_ok {
            let h = self.next_handle;
            self.next_handle = self.next_handle + 1;
            h
        } else {
            NO_SURFACE
        }
    }

    /// Create an offscreen-buffer surface of the given size. The native
    /// call encodes the size as the attribute list [width key, width,
    /// height key, height, terminator].
    pub fn create_pbuffer_surface(&mut self, config: u64, width: i32, height: i32) -> (r: u64)
        requires
            old(self).wf(),
            old(self).next_handle < u64::MAX,
        ensures
            final(self).wf(),
            final(self).log@ == old(self).log@.push(
                BackendCall::CreatePbufferSurface { config, width, height },
            ),
            if old(self).pbuffer_surface_ok {
                r == old(self).next_handle && r != NO_SURFACE && final(self).next_handle == old(
                    self,
                ).next_handle + 1 && final(self).only_log_and_handles_changed(*old(self))
            } else {
                r == NO_SURFACE && final(self).only_log_changed(*old(self))
            },
    {
        self.log.push(BackendCall::CreatePbufferSurface { config, width, height });
        if self.pbuffer_surface_ok {
            let h = self.next_handle;
            self.next_handle = self.next_handle + 1;
            h
        } else {
            NO_SURFACE
        }
    }

    /// Make the given tuple current on the modeled thread. Returns whether
    /// the call succeeded; it fails exactly under context loss, leaving the
    /// current tuple as it was.
    pub fn make_current(&mut self, display: u64, draw: u64, read: u64, context: u64) -> (r: bool)
        ensures
            final(self).log@ == old(self).log@.push(
                BackendCall::MakeCurrent { display, draw, read, context },
            ),
            r == !old(self).context_lost,
            if r {
                final(self).current == (CurrentTuple { display, draw, read, context })
                    && final(self).only_log_and_current_changed(*old(self))
            } else {
                final(self).only_log_changed(*old(self))
            },
    {
        self.log.push(BackendCall::MakeCurrent { display, draw, read, context });
        if self.context_lost {
            false
        } else {
            self.current = CurrentTuple { display, draw, read, context };
            true
        }
    }

    /// The context current on the modeled thread.
    pub fn get_current_context(&self) -> (r: u64)
        ensures
            r == self.current.context,
    {
        self.current.context
    }

    /// The draw surface current on the modeled thread.
    pub fn get_current_draw_surface(&self) -> (r: u64)
        ensures
            r == self.current.draw,
    {
        self.current.draw
    }

    /// The read surface current on the modeled thread.
    pub fn get_current_read_surface(&self) -> (r: u64)
        ensures
            r == self.current.read,
    {
        self.current.read
    }

    /// The display current on the modeled thread.
    pub fn get_current_display(&self) -> (r: u64)
        ensures
            r == self.current.display,
    {
        self.current.display
    }

    /// Set the swap interval of the current context's display.
    pub fn swap_interval(&mut self, display: u64, interval: i32) -> (r: bool)
        ensures
            r,
            final(self).only_log_changed(*old(self)),
            final(self).log@ == old(self).log@.push(BackendCall::SwapInterval { display, interval }),
    {
        self.log.push(BackendCall::SwapInterval { display, interval });
        true
    }

    /// Present the back buffer of `surface`. Fails exactly under context
    /// loss.
    pub fn swap_buffers(&mut self, display: u64, surface: u64) -> (r: bool)
        ensures
            r == !old(self).context_lost,
            final(self).only_log_changed(*old(self)),
            final(self).log@ == old(self).log@.push(BackendCall::SwapBuffers { surface }),
    {
        self.log.push(BackendCall::SwapBuffers { surface });
        !self.context_lost
    }

    /// Whether the damage-aware swap entry point is available.
    pub fn swap_buffers_with_damage_supported(&self) -> (r: bool)
        ensures
            r == self.swap_with_damage_loaded,
    {
        self.swap_with_damage_loaded
    }

    /// Present the back buffer, submitting the flattened damaged
    /// rectangles. Only callable when the entry point was resolved.
    pub fn swap_buffers_with_damage(
        &mut self,
        display: u64,
        surface: u64,
        rects: Vec<i32>,
        rect_count: usize,
    ) -> (r: bool)
        requires
            old(self).swap_with_damage_loaded,
        ensures
            r == !old(self).context_lost,
            final(self).only_log_changed(*old(self)),
            final(self).log@ == old(self).log@.push(
                BackendCall::SwapBuffersWithDamage { surface, rects, rect_count },
            ),
    {
        self.log.push(BackendCall::SwapBuffersWithDamage { surface, rects, rect_count });
        !self.context_lost
    }

    /// Query the age of the back buffer of `surface`; the query fails, and
    /// the age reads as zero, when the backend does not support it.
    pub fn query_buffer_age(&self, surface: u64) -> (r: i32)
        ensures
            r == if self.buffer_age_supported {
                self.buffer_age_value
            } else {
                0
            },
    {
        if self.buffer_age_supported {
            self.buffer_age_value
        } else {
            0
        }
    }

    /// Look an entry point up by name. The model backend resolves every
    /// name to the same address.
    pub fn get_proc_address(&self, name: &str) -> (r: u64)
        ensures
            r == self.proc_address,
    {
        self.proc_address
    }

    /// Block until the pending work of the current context has finished.
    pub fn finish(&mut self)
        ensures
            final(self).only_log_changed(*old(self)),
            final(self).log@ == old(self).log@.push(BackendCall::Finish),
    {
        self.log.push(BackendCall::Finish);
    }

    /// Destroy a context. The backend defers actual destruction while the
    /// context is current somewhere; the model records the request.
    pub fn destroy_context(&mut self, display: u64, context: u64)
        ensures
            final(self).only_log_changed(*old(self)),
            final(self).log@ == old(self).log@.push(BackendCall::DestroyContext { display, context }),
    {
        self.log.push(BackendCall::DestroyContext { display, context });
    }

    /// Destroy a surface.
    pub fn destroy_surface(&mut self, display: u64, surface: u64)
        ensures
            final(self).only_log_changed(*old(self)),
            final(self).log@ == old(self).log@.push(BackendCall::DestroySurface { display, surface }),
    {
        self.log.push(BackendCall::DestroySurface { display, surface });
    }
}

/// Whether no two configurations of `s` share an identifier.
pub open spec fn distinct_config_ids(s: Seq<ConfigCaps>) -> bool {
    forall|i: int, j: int| 0 <= i < j < s.len() ==> s[i].id != s[j].id
}

/// In a table with distinct identifiers, looking a configuration up by its
/// identifier finds exactly that configuration.
pub proof fn lemma_find_config_by_id(s: Seq<ConfigCaps>, x: ConfigCaps)
    requires
        distinct_config_ids(s),
        s.contains(x),
    ensures
        spec_find_config_in(s, x.id) == Some(x),
    decreases s.len(),
{
    let k = choose|k: int| 0 <= k < s.len() && s[k] == x;
    if s[0].id == x.id {
        if k != 0 {
            assert(s[0].id != s[k].id);
        }
        assert(s[0] == x);
    } else {
        assert(k != 0);
        let rest = s.skip(1);
        assert(rest[k - 1] == x);
        assert(rest.contains(x));
        assert forall|i: int, j: int| 0 <= i < j < rest.len() implies rest[i].id != rest[j].id by {
            assert(rest[i] == s[i + 1]);
            assert(rest[j] == s[j + 1]);
        }
        lemma_find_config_by_id(rest, x);
    }
}

/// First configuration in `s` whose identifier is `id`.
pub open spec fn spec_find_config_in(s: Seq<ConfigCaps>, id: u64) -> Option<ConfigCaps>
    decreases s.len(),
{
    if s.len() == 0 {
        None
    } else if s[0].id == id {
        Some(s[0])
    } else {
        spec_find_config_in(s.skip(1), id)
    }
}

/// Lexicographic order on (major, minor) API versions.
pub open spec fn spec_version_le(a: (u8, u8), b: (u8, u8)) -> bool {
    a.0 < b.0 || (a.0 == b.0 && a.1 <= b.1)
}

/// Lexicographic comparison of (major, minor) API versions.
pub fn version_le(a: (u8, u8), b: (u8, u8)) -> (r: bool)
    ensures
        r == spec_version_le(a, b),
{
    a.0 < b.0 || (a.0 == b.0 && a.1 <= b.1)
}

/// Whether the backend version `v` is at least `major.minor`,
/// lexicographically.
pub open spec fn spec_version_at_least(v: (i32, i32), major: i32, minor: i32) -> bool {
    v.0 > major || (v.0 == major && v.1 >= minor)
}

/// Whether the backend version `v` is at least `major.minor`.
pub fn version_at_least(v: (i32, i32), major: i32, minor: i32) -> (r: bool)
    ensures
        r == spec_version_at_least(v, major, minor),
{
    v.0 > major || (v.0 == major && v.1 >= minor)
}

} // verus!
