//! Verified negotiation and lifecycle management for hardware-accelerated
//! rendering contexts over an EGL-style native backend.
//!
//! The native backend itself (symbol loading, the display server, the
//! driver) is an external collaborator: it is represented as explicit state
//! (see `backend`), passed by reference into every component, so that the
//! configuration-selection algorithm, the context-creation fallback cascade
//! and the current/not-current lifecycle protocol can be verified against a
//! precise model of the backend's behaviour.

pub mod backend;
pub mod context;
pub mod egl;
pub mod guard;
pub mod laws;
pub mod negotiate;
pub mod select;

pub use crate::context::{Context, ContextCurrentState, NotCurrent, PossiblyCurrent};

use vstd::prelude::*;

verus! {

/// All APIs related to OpenGL that a context can be created for.
#[derive(Debug, Clone, Copy, PartialEq, Eq, Structural)]
pub enum Api {
    /// The classical OpenGL, as found on desktop platforms.
    OpenGl,
    /// OpenGL for embedded systems.
    OpenGlEs,
    /// OpenGL for the web; very similar to OpenGL ES.
    WebGl,
}

/// The requested context profile.
#[derive(Debug, Clone, Copy, PartialEq, Eq, Structural)]
pub enum GlProfile {
    /// Include all the immediate-mode functions and definitions.
    Compatibility,
    /// Include only the future-compatible functions and definitions.
    Core,
}

/// The API and version being requested when a context is created.
#[derive(Debug, Clone, Copy, PartialEq, Eq)]
pub enum GlRequest {
    /// Request the latest version of the best API of this platform.
    Latest,
    /// Request a specific version of a specific API.
    Specific(Api, (u8, u8)),
    /// If the desktop API is available, create a context with
    /// `opengl_version`; else fall back to the embedded API with
    /// `opengles_version`.
    GlThenGles {
        /// The version to use for the desktop API.
        opengl_version: (u8, u8),
        /// The version to use for the embedded API.
        opengles_version: (u8, u8),
    },
}

impl GlRequest {
    /// Extract the desktop version carried by the request, if any.
    pub fn to_gl_version(self) -> (r: Option<(u8, u8)>)
        ensures
            r == match self {
                GlRequest::Specific(Api::OpenGl, v) => Some(v),
                GlRequest::GlThenGles { opengl_version, .. } => Some(opengl_version),
                _ => None::<(u8, u8)>,
            },
    {
        match self {
            GlRequest::Specific(Api::OpenGl, opengl_version) => Some(opengl_version),
            GlRequest::GlThenGles { opengl_version, .. } => Some(opengl_version),
            _ => None,
        }
    }
}

/// The tolerance of a context to faults.
#[derive(Debug, Clone, Copy, PartialEq, Eq, Structural)]
pub enum Robustness {
    /// Not everything is checked; an erroneous command can crash the
    /// process.
    NotRobust,
    /// The driver checks nothing at all. Purely an optimization: silently
    /// falls back to `NotRobust` when unsupported.
    NoError,
    /// Everything is checked to avoid crashes; creation fails when the
    /// backend cannot guarantee it.
    RobustNoResetNotification,
    /// As `RobustNoResetNotification`, but creation does not fail when
    /// unsupported.
    TryRobustNoResetNotification,
    /// Everything is checked; on a fault the context enters the lost state
    /// and must be recreated. Creation fails when unsupported.
    RobustLoseContextOnReset,
    /// As `RobustLoseContextOnReset`, but creation does not fail when
    /// unsupported.
    TryRobustLoseContextOnReset,
}

/// The behaviour of the driver when the current context changes.
#[derive(Debug, Clone, Copy, PartialEq, Eq, Structural)]
pub enum ReleaseBehavior {
    /// Doesn't do anything; most notably does not flush.
    NoFlush,
    /// Flushes the context that was previously current.
    Flush,
}

/// The vsync policy of a context.
#[derive(Debug, Clone, Copy, PartialEq, Eq, Structural)]
pub enum VSyncMode {
    /// Tear when the frame rate drops below the refresh rate.
    Adaptive,
    /// Block swaps until the next refresh.
    On,
    /// Never block swaps.
    Off,
    /// Block swaps for the given number of refresh intervals.
    SwapInterval(i8),
}

/// The swap interval a vsync mode asks of the backend.
pub open spec fn spec_swap_interval(mode: VSyncMode) -> i32 {
    match mode {
        VSyncMode::Adaptive => -1i32,
        VSyncMode::Off => 0i32,
        VSyncMode::On => 1i32,
        VSyncMode::SwapInterval(interval) => interval as i32,
    }
}

impl VSyncMode {
    /// The swap interval this mode asks of the backend.
    pub fn get_swap_interval(&self) -> (r: i32)
        ensures
            r == spec_swap_interval(*self),
    {
        match self {
            VSyncMode::Adaptive => -1,
            VSyncMode::Off => 0,
            VSyncMode::On => 1,
            VSyncMode::SwapInterval(interval) => *interval as i32,
        }
    }
}

/// Inclusive bounds on the swap intervals a configuration supports.
#[derive(Debug, Clone, Copy, PartialEq, Eq, Structural)]
pub struct SwapIntervalRange {
    pub min: i32,
    pub max: i32,
}

/// The backend call that failed in a way the protocol does not define.
#[derive(Debug, Clone, Copy, PartialEq, Eq, Structural)]
pub enum OsFailure {
    /// Display acquisition returned the null display.
    GetDisplay,
    /// Display initialization failed.
    Initialize,
    /// Configuration enumeration failed outright.
    ChooseConfig,
    /// A configuration attribute query failed.
    GetConfigAttrib,
    /// Window surface creation failed.
    CreateWindowSurface,
    /// Offscreen-buffer surface creation failed.
    CreatePbufferSurface,
    /// A make-current issued while setting up a fresh context failed.
    MakeCurrent,
}

/// Error that can happen while creating a context.
#[derive(Debug)]
pub enum CreationError {
    /// A backend call failed in a way the protocol does not define.
    OsError(OsFailure),
    /// A required feature or extension is absent on this backend.
    NotSupported(NotSupportedReason),
    /// No backend library could be loaded at all.
    NoBackendAvailable,
    /// A required robustness policy is not supported by this backend.
    RobustnessNotSupported,
    /// Every candidate API version was refused by the backend.
    OpenGlVersionNotSupported,
    /// Selection produced no viable configuration.
    NoAvailablePixelFormat,
    /// A platform-specific failure outside the common taxonomy.
    PlatformSpecific,
    /// Several independent attempts failed; every reason is preserved.
    CreationErrors(Vec<Box<CreationError>>),
}

/// The feature whose absence made creation fail with `NotSupported`.
#[derive(Debug, Clone, Copy, PartialEq, Eq, Structural)]
pub enum NotSupportedReason {
    /// The backend does not advertise surfaceless contexts.
    Surfaceless,
    /// The backend offers no way to disable the flush-on-release
    /// behaviour.
    ReleaseBehaviorNone,
}

impl CreationError {
    /// Fold another failure into an aggregate error: the new error is
    /// appended and every reason already held is preserved.
    pub fn append(self, err: CreationError) -> (r: CreationError)
        ensures
            match self {
                CreationError::CreationErrors(errs) => (r matches CreationError::CreationErrors(es)
                    && es@.len() == errs@.len() + 1 && (forall|i: int|
                    0 <= i < errs@.len() ==> es@[i] == errs@[i]) && *es@[errs@.len() as int]
                    == err),
                _ => (r matches CreationError::CreationErrors(es) && es@.len() == 2 && *es@[0]
                    == err && *es@[1] == self),
            },
    {
        match self {
            CreationError::CreationErrors(mut errs) => {
                errs.push(Box::new(err));
                CreationError::CreationErrors(errs)
            },
            _ => {
                let mut errs: Vec<Box<CreationError>> = Vec::new();
                errs.push(Box::new(err));
                errs.push(Box::new(self));
                CreationError::CreationErrors(errs)
            },
        }
    }
}

/// Error that can happen when manipulating an existing context.
#[derive(Debug, Clone, Copy, PartialEq, Eq, Structural)]
pub enum ContextError {
    /// A backend call failed in a way the protocol does not define.
    OsError(OsFailure),
    /// The backend reported the context lost; only recreating the context
    /// recovers from this.
    ContextLost,
    /// An optional extension entry point was never loaded.
    FunctionUnavailable,
}

/// Error that can happen when changing the vsync mode of a context.
#[derive(Debug, Clone, Copy, PartialEq, Eq, Structural)]
pub enum VSyncError {
    /// The underlying activation or interval call failed.
    ContextError(ContextError),
    /// The chosen configuration cannot honour this vsync mode.
    UnsupportedVSyncMode(VSyncMode),
}

/// A resolved pixel format: the concrete capabilities of the chosen
/// configuration, as the driver reports them.
#[derive(Debug, Clone, Copy, PartialEq)]
pub struct PixelFormat {
    pub hardware_accelerated: bool,
    /// The number of colour bits, excluding alpha.
    pub color_bits: u8,
    pub alpha_bits: u8,
    pub depth_bits: u8,
    pub stencil_bits: u8,
    pub stereoscopy: bool,
    pub double_buffer: bool,
    /// `None` when multisampling is disabled, otherwise the sample count.
    pub multisampling: Option<u16>,
    pub srgb: bool,
}

/// Whether `n` is a power of two.
pub open spec fn spec_is_power_of_two(n: u16) -> bool {
    n != 0 && n & ((n - 1) as u16) == 0
}

/// How the backend should choose a configuration. Every requirement is
/// optional; absence means "don't care".
#[derive(Debug, Clone)]
pub struct PixelFormatRequirements {
    /// If true, only hardware-accelerated formats are considered; if
    /// false, only software renderers.
    pub hardware_accelerated: Option<bool>,
    /// Minimum number of colour bits, excluding alpha.
    pub color_bits: Option<u8>,
    /// If true, the colour buffer must use a floating-point format. Not
    /// honoured by this backend's selector.
    pub float_color_buffer: bool,
    /// Minimum number of alpha bits.
    pub alpha_bits: Option<u8>,
    /// Minimum number of depth-buffer bits.
    pub depth_bits: Option<u8>,
    /// Minimum number of stencil bits.
    pub stencil_bits: Option<u8>,
    /// If true, only double-buffered formats; if false, only
    /// single-buffered ones.
    pub double_buffer: Option<bool>,
    /// Minimum samples per pixel; `Some(0)` forbids multisampling.
    pub multisampling: Option<u16>,
    /// If true, only stereoscopic formats.
    pub stereoscopy: bool,
    /// If true, only sRGB-capable formats.
    pub srgb: bool,
    /// The behaviour when the current context changes.
    pub release_behavior: ReleaseBehavior,
    /// Pins selection to one native visual, for platform layers that must
    /// match a window's visual identifier.
    pub x11_visual_xid: Option<u64>,
}

impl PixelFormatRequirements {
    /// A requested sample count must be zero or a power of two; anything
    /// else is rejected before any native call is issued.
    pub open spec fn multisampling_valid(&self) -> bool {
        match self.multisampling {
            Some(n) => n == 0 || spec_is_power_of_two(n),
            None => true,
        }
    }
}

impl Default for PixelFormatRequirements {
    /// The defaults ask for a hardware-accelerated, 24-bit colour, 8-bit
    /// alpha, 24-bit depth, 8-bit stencil, sRGB-capable format that
    /// flushes on release.
    fn default() -> (r: PixelFormatRequirements)
        ensures
            r.hardware_accelerated == Some(true),
            r.color_bits == Some(24u8),
            !r.float_color_buffer,
            r.alpha_bits == Some(8u8),
            r.depth_bits == Some(24u8),
            r.stencil_bits == Some(8u8),
            r.double_buffer is None,
            r.multisampling is None,
            !r.stereoscopy,
            r.srgb,
            r.release_behavior == ReleaseBehavior::Flush,
            r.x11_visual_xid is None,
    {
        PixelFormatRequirements {
            hardware_accelerated: Some(true),
            color_bits: Some(24),
            float_color_buffer: false,
            alpha_bits: Some(8),
            depth_bits: Some(24),
            stencil_bits: Some(8),
            double_buffer: None,
            multisampling: None,
            stereoscopy: false,
            srgb: true,
            release_behavior: ReleaseBehavior::Flush,
            x11_visual_xid: None,
        }
    }
}

/// Attributes to use when creating a context. `S` is the representation of
/// the context whose objects are shared with the new one.
#[derive(Debug, Clone)]
pub struct GlAttributes<S> {
    /// An existing context with which some objects get shared.
    pub sharing: Option<S>,
    /// The API and version to try to create.
    pub version: GlRequest,
    /// The profile to use.
    pub profile: Option<GlProfile>,
    /// Whether to enable the debug flag of the context.
    pub debug: bool,
    /// How the context should detect errors.
    pub robustness: Robustness,
    /// Whether swapping buffers waits for refreshes.
    pub vsync: VSyncMode,
}

impl<S> GlAttributes<S> {
    /// Turn the sharing parameter into another type by calling a closure.
    pub fn map_sharing<F, T>(self, f: F) -> (r: GlAttributes<T>) where F: FnOnce(S) -> T
        requires
            forall|s: S| #[trigger] f.requires((s,)),
        ensures
            r.version == self.version,
            r.profile == self.profile,
            r.debug == self.debug,
            r.robustness == self.robustness,
            r.vsync == self.vsync,
            match (self.sharing, r.sharing) {
                (Some(s), Some(t)) => f.ensures((s,), t),
                (None, None) => true,
                _ => false,
            },
    {
        let sharing = match self.sharing {
            Some(s) => Some(f(s)),
            None => None,
        };
        GlAttributes {
            sharing,
            version: self.version,
            profile: self.profile,
            debug: self.debug,
            robustness: self.robustness,
            vsync: self.vsync,
        }
    }

    /// Replace the sharing parameter, keeping every other attribute.
    pub fn set_sharing<T>(self, sharing: Option<T>) -> (r: GlAttributes<T>)
        ensures
            r.sharing == sharing,
            r.version == self.version,
            r.profile == self.profile,
            r.debug == self.debug,
            r.robustness == self.robustness,
            r.vsync == self.vsync,
    {
        GlAttributes {
            sharing,
            version: self.version,
            profile: self.profile,
            debug: self.debug,
            robustness: self.robustness,
            vsync: self.vsync,
        }
    }
}

impl<S> Default for GlAttributes<S> {
    /// By default nothing is shared, the latest version of the best API is
    /// requested, and both the debug flag and vsync are off.
    fn default() -> (r: GlAttributes<S>)
        ensures
            r.sharing is None,
            r.version == GlRequest::Latest,
            r.profile is None,
            !r.debug,
            r.robustness == Robustness::NotRobust,
            r.vsync == VSyncMode::Off,
    {
        GlAttributes {
            sharing: None,
            version: GlRequest::Latest,
            profile: None,
            debug: false,
            robustness: Robustness::NotRobust,
            vsync: VSyncMode::Off,
        }
    }
}

/// An object that accumulates the requirements and creation policy for a
/// context and builds it. The context whose objects are shared with the
/// new one is carried as its raw native handle.
#[derive(Debug, Clone)]
pub struct ContextBuilder {
    /// The attributes to use to create the context.
    pub gl_attr: GlAttributes<u64>,
    /// The pixel format requirements.
    pub pf_reqs: PixelFormatRequirements,
}

impl Default for ContextBuilder {
    /// A builder with the default requirements and creation policy.
    fn default() -> (r: ContextBuilder)
        ensures
            r.gl_attr.sharing is None,
            r.gl_attr.version == GlRequest::Latest,
            r.gl_attr.profile is None,
            !r.gl_attr.debug,
            r.gl_attr.robustness == Robustness::NotRobust,
            r.gl_attr.vsync == VSyncMode::Off,
            r.pf_reqs.hardware_accelerated == Some(true),
            r.pf_reqs.color_bits == Some(24u8),
            r.pf_reqs.alpha_bits == Some(8u8),
            r.pf_reqs.depth_bits == Some(24u8),
            r.pf_reqs.stencil_bits == Some(8u8),
            r.pf_reqs.double_buffer is None,
            r.pf_reqs.multisampling is None,
            !r.pf_reqs.stereoscopy,
            r.pf_reqs.srgb,
            r.pf_reqs.release_behavior == ReleaseBehavior::Flush,
            r.pf_reqs.x11_visual_xid is None,
    {
        ContextBuilder { gl_attr: Default::default(), pf_reqs: Default::default() }
    }
}

impl ContextBuilder {
    /// Initializes a new builder with default values.
    pub fn new() -> (r: ContextBuilder)
        ensures
            r.gl_attr.sharing is None,
            r.gl_attr.version == GlRequest::Latest,
            r.gl_attr.profile is None,
            !r.gl_attr.debug,
            r.gl_attr.robustness == Robustness::NotRobust,
            r.gl_attr.vsync == VSyncMode::Off,
            r.pf_reqs.multisampling is None,
            r.pf_reqs.double_buffer is None,
            !r.pf_reqs.stereoscopy,
            r.pf_reqs.release_behavior == ReleaseBehavior::Flush,
            r.pf_reqs.x11_visual_xid is None,
    {
        Default::default()
    }

    /// Sets how the backend should choose the API and version.
    pub fn with_gl(self, request: GlRequest) -> (r: ContextBuilder)
        ensures
            r == (ContextBuilder {
                gl_attr: (GlAttributes { version: request, ..self.gl_attr }),
                ..self
            }),
    {
        let mut this = self;
        this.gl_attr.version = request;
        this
    }

    /// Sets the desired context profile.
    pub fn with_gl_profile(self, profile: GlProfile) -> (r: ContextBuilder)
        ensures
            r == (ContextBuilder {
                gl_attr: (GlAttributes { profile: Some(profile), ..self.gl_attr }),
                ..self
            }),
    {
        let mut this = self;
        this.gl_attr.profile = Some(profile);
        this
    }

    /// Sets the debug flag for the context.
    pub fn with_gl_debug_flag(self, flag: bool) -> (r: ContextBuilder)
        ensures
            r == (ContextBuilder {
                gl_attr: (GlAttributes { debug: flag, ..self.gl_attr }),
                ..self
            }),
    {
        let mut this = self;
        this.gl_attr.debug = flag;
        this
    }

    /// Sets the robustness of the context.
    pub fn with_gl_robustness(self, robustness: Robustness) -> (r: ContextBuilder)
        ensures
            r == (ContextBuilder {
                gl_attr: (GlAttributes { robustness, ..self.gl_attr }),
                ..self
            }),
    {
        let mut this = self;
        this.gl_attr.robustness = robustness;
        this
    }

    /// Requests the given vsync mode.
    pub fn with_vsync(self, vsync: VSyncMode) -> (r: ContextBuilder)
        ensures
            r == (ContextBuilder {
                gl_attr: (GlAttributes { vsync, ..self.gl_attr }),
                ..self
            }),
    {
        let mut this = self;
        this.gl_attr.vsync = vsync;
        this
    }

    /// Sets the multisampling level to request. Zero clears the
    /// requirement; any other request must be a power of two.
    pub fn with_multisampling(self, samples: u16) -> (r: ContextBuilder)
        requires
            samples == 0 || spec_is_power_of_two(samples),
        ensures
            r == (ContextBuilder {
                pf_reqs: (PixelFormatRequirements {
                    multisampling: if samples == 0 {
                        None
                    } else {
                        Some(samples)
                    },
                    ..self.pf_reqs
                }),
                ..self
            }),
    {
        let mut this = self;
        this.pf_reqs.multisampling = match samples {
            0 => None,
            _ => Some(samples),
        };
        this
    }

    /// Sets the number of bits in the depth buffer.
    pub fn with_depth_buffer(self, bits: u8) -> (r: ContextBuilder)
        ensures
            r == (ContextBuilder {
                pf_reqs: (PixelFormatRequirements { depth_bits: Some(bits), ..self.pf_reqs }),
                ..self
            }),
    {
        let mut this = self;
        this.pf_reqs.depth_bits = Some(bits);
        this
    }

    /// Sets the number of bits in the stencil buffer.
    pub fn with_stencil_buffer(self, bits: u8) -> (r: ContextBuilder)
        ensures
            r == (ContextBuilder {
                pf_reqs: (PixelFormatRequirements { stencil_bits: Some(bits), ..self.pf_reqs }),
                ..self
            }),
    {
        let mut this = self;
        this.pf_reqs.stencil_bits = Some(bits);
        this
    }

    /// Sets the number of bits in the colour buffer and its alpha
    /// channel.
    pub fn with_pixel_format(self, color_bits: u8, alpha_bits: u8) -> (r: ContextBuilder)
        ensures
            r == (ContextBuilder {
                pf_reqs: (PixelFormatRequirements {
                    color_bits: Some(color_bits),
                    alpha_bits: Some(alpha_bits),
                    ..self.pf_reqs
                }),
                ..self
            }),
    {
        let mut this = self;
        this.pf_reqs.color_bits = Some(color_bits);
        this.pf_reqs.alpha_bits = Some(alpha_bits);
        this
    }

    /// Requests a stereoscopic format.
    pub fn with_stereoscopy(self) -> (r: ContextBuilder)
        ensures
            r == (ContextBuilder {
                pf_reqs: (PixelFormatRequirements { stereoscopy: true, ..self.pf_reqs }),
                ..self
            }),
    {
        let mut this = self;
        this.pf_reqs.stereoscopy = true;
        this
    }

    /// Sets whether an sRGB-capable format is required.
    pub fn with_srgb(self, srgb_enabled: bool) -> (r: ContextBuilder)
        ensures
            r == (ContextBuilder {
                pf_reqs: (PixelFormatRequirements { srgb: srgb_enabled, ..self.pf_reqs }),
                ..self
            }),
    {
        let mut this = self;
        this.pf_reqs.srgb = srgb_enabled;
        this
    }

    /// Sets whether double buffering is required or refused.
    pub fn with_double_buffer(self, double_buffer: Option<bool>) -> (r: ContextBuilder)
        ensures
            r == (ContextBuilder {
                pf_reqs: (PixelFormatRequirements { double_buffer, ..self.pf_reqs }),
                ..self
            }),
    {
        let mut this = self;
        this.pf_reqs.double_buffer = double_buffer;
        this
    }

    /// Sets whether hardware acceleration is required or refused.
    pub fn with_hardware_acceleration(self, acceleration: Option<bool>) -> (r: ContextBuilder)
        ensures
            r == (ContextBuilder {
                pf_reqs: (PixelFormatRequirements {
                    hardware_accelerated: acceleration,
                    ..self.pf_reqs
                }),
                ..self
            }),
    {
        let mut this = self;
        this.pf_reqs.hardware_accelerated = acceleration;
        this
    }
}

/// Rectangles to submit as buffer damage.
#[derive(Debug, Clone, Copy, PartialEq, Eq, Structural)]
pub struct Rect {
    pub x: u32,
    pub y: u32,
    pub width: u32,
    pub height: u32,
}

} // verus!
