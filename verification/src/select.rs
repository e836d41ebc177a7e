//! Configuration selection: building the attribute descriptor from the
//! requirements, filtering the backend's answers by multisampling and
//! vsync-interval capability, and resolving the chosen configuration into
//! a concrete pixel format.

use vstd::prelude::*;

use crate::backend::{Backend, BackendCall, ConfigCaps, spec_version_at_least, version_at_least};
use crate::egl::SurfaceType;
use crate::{Api, CreationError, GlAttributes, NotSupportedReason, OsFailure, PixelFormat,
    PixelFormatRequirements, ReleaseBehavior, SwapIntervalRange, spec_swap_interval};

verus! {

/// Attribute key: the kind of colour buffer.
pub const COLOR_BUFFER_TYPE: i32 = 0x303F;
/// Attribute value: an RGB colour buffer.
pub const RGB_BUFFER: i32 = 0x308E;
/// Attribute key: the surface kinds a configuration supports.
pub const SURFACE_TYPE: i32 = 0x3033;
/// Surface bit: native windows.
pub const WINDOW_BIT: i32 = 0x0004;
/// Surface bit: offscreen buffers.
pub const PBUFFER_BIT: i32 = 0x0001;
/// Attribute key: the APIs a configuration can render.
pub const RENDERABLE_TYPE: i32 = 0x3040;
/// Attribute key: the APIs a configuration is conformant for.
pub const CONFORMANT: i32 = 0x3042;
/// Renderable bit: the desktop API.
pub const OPENGL_BIT: i32 = 0x0008;
/// Renderable bit: the embedded API, first generation.
pub const OPENGL_ES_BIT: i32 = 0x0001;
/// Renderable bit: the embedded API, second generation.
pub const OPENGL_ES2_BIT: i32 = 0x0004;
/// Renderable bit: the embedded API, third generation.
pub const OPENGL_ES3_BIT: i32 = 0x0040;
/// Attribute key: the caveat attached to a configuration.
pub const CONFIG_CAVEAT: i32 = 0x3027;
/// Attribute value: the configuration renders without acceleration.
pub const SLOW_CONFIG: i32 = 0x3050;
/// Attribute keys for the buffer bit counts.
pub const RED_SIZE: i32 = 0x3024;
pub const GREEN_SIZE: i32 = 0x3023;
pub const BLUE_SIZE: i32 = 0x3022;
pub const ALPHA_SIZE: i32 = 0x3021;
pub const DEPTH_SIZE: i32 = 0x3025;
pub const STENCIL_SIZE: i32 = 0x3026;
/// Attribute key: samples per pixel.
pub const SAMPLES: i32 = 0x3031;
/// Attribute key: the native visual of a configuration.
pub const NATIVE_VISUAL_ID: i32 = 0x302E;
/// Attribute value closing a descriptor; also the caveat value of an
/// ordinary configuration.
pub const ATTRIB_NONE: i32 = 0x3038;

/// The error the descriptor builder stops with, if any: requirement
/// combinations this backend cannot express are rejected here, before any
/// native call is issued.
pub open spec fn spec_descriptor_error(
    egl_version: (i32, i32),
    api: Api,
    version: Option<(u8, u8)>,
    reqs: PixelFormatRequirements,
) -> Option<CreationError> {
    if api == Api::OpenGlEs && (version matches Some(v) && v.0 == 3) && !spec_version_at_least(
        egl_version,
        1,
        3,
    ) {
        Some(CreationError::NoAvailablePixelFormat)
    } else if api == Api::OpenGlEs && (version matches Some(v) && v.0 == 2)
        && !spec_version_at_least(egl_version, 1, 3) {
        Some(CreationError::NoAvailablePixelFormat)
    } else if api == Api::OpenGl && !spec_version_at_least(egl_version, 1, 3) {
        Some(CreationError::NoAvailablePixelFormat)
    } else if reqs.double_buffer == Some(true) {
        Some(CreationError::NoAvailablePixelFormat)
    } else if !reqs.multisampling_valid() {
        Some(CreationError::NoAvailablePixelFormat)
    } else if reqs.stereoscopy {
        Some(CreationError::NoAvailablePixelFormat)
    } else if reqs.release_behavior != ReleaseBehavior::Flush {
        Some(CreationError::NotSupported(NotSupportedReason::ReleaseBehaviorNone))
    } else {
        None
    }
}

/// The colour-buffer-type segment of the descriptor.
pub open spec fn spec_color_buffer_segment(egl_version: (i32, i32)) -> Seq<i32> {
    if spec_version_at_least(egl_version, 1, 2) {
        seq![COLOR_BUFFER_TYPE, RGB_BUFFER]
    } else {
        seq![]
    }
}

/// The surface-usage segment of the descriptor. Surfaceless contexts ask
/// for no surface bit at all.
pub open spec fn spec_surface_type_segment(surface_type: SurfaceType) -> Seq<i32> {
    seq![
        SURFACE_TYPE,
        match surface_type {
            SurfaceType::Window => WINDOW_BIT,
            SurfaceType::PBuffer => PBUFFER_BIT,
            SurfaceType::Surfaceless => 0i32,
        },
    ]
}

/// The renderable-type and conformance segment of the descriptor; empty
/// for embedded versions on backends too old to express them.
pub open spec fn spec_renderable_segment(
    egl_version: (i32, i32),
    api: Api,
    version: Option<(u8, u8)>,
) -> Seq<i32> {
    match api {
        Api::OpenGlEs => match version {
            Some(v) => if v.0 == 3 {
                seq![RENDERABLE_TYPE, OPENGL_ES3_BIT, CONFORMANT, OPENGL_ES3_BIT]
            } else if v.0 == 2 {
                seq![RENDERABLE_TYPE, OPENGL_ES2_BIT, CONFORMANT, OPENGL_ES2_BIT]
            } else if spec_version_at_least(egl_version, 1, 3) {
                seq![RENDERABLE_TYPE, OPENGL_ES_BIT, CONFORMANT, OPENGL_ES_BIT]
            } else {
                seq![]
            },
            None => if spec_version_at_least(egl_version, 1, 3) {
                seq![RENDERABLE_TYPE, OPENGL_ES_BIT, CONFORMANT, OPENGL_ES_BIT]
            } else {
                seq![]
            },
        },
        _ => seq![RENDERABLE_TYPE, OPENGL_BIT, CONFORMANT, OPENGL_BIT],
    }
}

/// The caveat segment: requiring acceleration avoids slow configurations,
/// refusing it requires them.
pub open spec fn spec_caveat_segment(reqs: PixelFormatRequirements) -> Seq<i32> {
    match reqs.hardware_accelerated {
        Some(accelerated) => seq![
            CONFIG_CAVEAT,
            if accelerated {
                ATTRIB_NONE
            } else {
                SLOW_CONFIG
            },
        ],
        None => seq![],
    }
}

/// The requested colour bits split evenly across the three channels, the
/// remainder biased toward the later channels.
pub open spec fn spec_color_segment(reqs: PixelFormatRequirements) -> Seq<i32> {
    match reqs.color_bits {
        Some(color) => seq![
            RED_SIZE,
            (color / 3) as i32,
            GREEN_SIZE,
            (color / 3 + if color % 3 != 0 {
                1u8
            } else {
                0u8
            }) as i32,
            BLUE_SIZE,
            (color / 3 + if color % 3 == 2 {
                1u8
            } else {
                0u8
            }) as i32,
        ],
        None => seq![],
    }
}

/// A single optional key/value requirement segment.
pub open spec fn spec_u8_segment(key: i32, value: Option<u8>) -> Seq<i32> {
    match value {
        Some(v) => seq![key, v as i32],
        None => seq![],
    }
}

/// The multisampling segment.
pub open spec fn spec_samples_segment(reqs: PixelFormatRequirements) -> Seq<i32> {
    match reqs.multisampling {
        Some(ms) => seq![SAMPLES, ms as i32],
        None => seq![],
    }
}

/// The native-visual segment.
pub open spec fn spec_visual_segment(reqs: PixelFormatRequirements) -> Seq<i32> {
    match reqs.x11_visual_xid {
        Some(xid) => seq![NATIVE_VISUAL_ID, xid as i32],
        None => seq![],
    }
}

/// The full ordered attribute descriptor handed to configuration
/// enumeration, when `spec_descriptor_error` reports no error.
pub open spec fn spec_descriptor(
    egl_version: (i32, i32),
    api: Api,
    version: Option<(u8, u8)>,
    reqs: PixelFormatRequirements,
    surface_type: SurfaceType,
) -> Seq<i32> {
    spec_color_buffer_segment(egl_version) + spec_surface_type_segment(surface_type)
        + spec_renderable_segment(egl_version, api, version) + spec_caveat_segment(reqs)
        + spec_color_segment(reqs) + spec_u8_segment(ALPHA_SIZE, reqs.alpha_bits) + spec_u8_segment(
        DEPTH_SIZE,
        reqs.depth_bits,
    ) + spec_u8_segment(STENCIL_SIZE, reqs.stencil_bits) + spec_samples_segment(reqs)
        + spec_visual_segment(reqs) + seq![ATTRIB_NONE]
}

/// Build the ordered attribute descriptor for the requirements, or reject
/// a combination the backend cannot express. Runs before, and entirely
/// without, any native call.
/// The colour-buffer-type segment.
fn seg_color_buffer(egl_version: (i32, i32)) -> (r: Vec<i32>)
    ensures
        r@ == spec_color_buffer_segment(egl_version),
{
    let mut out: Vec<i32> = Vec::new();
    if version_at_least(egl_version, 1, 2) {
        out.push(COLOR_BUFFER_TYPE);
        out.push(RGB_BUFFER);
    }
    proof {
        assert(out@ =~= spec_color_buffer_segment(egl_version));
    }
    out
}

/// The surface-usage segment.
fn seg_surface_type(surface_type: SurfaceType) -> (r: Vec<i32>)
    ensures
        r@ == spec_surface_type_segment(surface_type),
{
    let mut out: Vec<i32> = Vec::new();
    out.push(SURFACE_TYPE);
    out.push(
        match surface_type {
            SurfaceType::Window => WINDOW_BIT,
            SurfaceType::PBuffer => PBUFFER_BIT,
            SurfaceType::Surfaceless => 0,
        },
    );
    proof {
        assert(out@ =~= spec_surface_type_segment(surface_type));
    }
    out
}

/// The renderable-type and conformance segment; rejects embedded or
/// desktop requests the backend version cannot express.
fn seg_renderable(egl_version: (i32, i32), api: Api, version: Option<(u8, u8)>) -> (r: Result<
    Vec<i32>,
    CreationError,
>)
    requires
        api != Api::WebGl,
    ensures
        match r {
            Ok(v) => v@ == spec_renderable_segment(egl_version, api, version) && !(api
                == Api::OpenGlEs && (version matches Some(ver) && (ver.0 == 3 || ver.0 == 2))
                && !spec_version_at_least(egl_version, 1, 3)) && !(api == Api::OpenGl
                && !spec_version_at_least(egl_version, 1, 3)),
            Err(e) => {
                &&& e == CreationError::NoAvailablePixelFormat
                &&& ((api == Api::OpenGlEs && (version matches Some(ver) && (ver.0 == 3 || ver.0
                    == 2)) && !spec_version_at_least(egl_version, 1, 3)) || (api == Api::OpenGl
                    && !spec_version_at_least(egl_version, 1, 3)))
            },
        },
{
    let mut out: Vec<i32> = Vec::new();
    match api {
        Api::OpenGlEs => {
            let is_es3 = match version {
                Some(v) => v.0 == 3,
                None => false,
            };
            let is_es2 = match version {
                Some(v) => v.0 == 2,
                None => false,
            };
            if is_es3 {
                if !version_at_least(egl_version, 1, 3) {
                    return Err(CreationError::NoAvailablePixelFormat);
                }
                out.push(RENDERABLE_TYPE);
                out.push(OPENGL_ES3_BIT);
                out.push(CONFORMANT);
                out.push(OPENGL_ES3_BIT);
            } else if is_es2 {
                if !version_at_least(egl_version, 1, 3) {
                    return Err(CreationError::NoAvailablePixelFormat);
                }
                out.push(RENDERABLE_TYPE);
                out.push(OPENGL_ES2_BIT);
                out.push(CONFORMANT);
                out.push(OPENGL_ES2_BIT);
            } else {
                if version_at_least(egl_version, 1, 3) {
                    out.push(RENDERABLE_TYPE);
                    out.push(OPENGL_ES_BIT);
                    out.push(CONFORMANT);
                    out.push(OPENGL_ES_BIT);
                }
            }
        },
        _ => {
            if !version_at_least(egl_version, 1, 3) {
                return Err(CreationError::NoAvailablePixelFormat);
            }
            out.push(RENDERABLE_TYPE);
            out.push(OPENGL_BIT);
            out.push(CONFORMANT);
            out.push(OPENGL_BIT);
        },
    }
    proof {
        assert(out@ =~= spec_renderable_segment(egl_version, api, version));
    }
    Ok(out)
}

/// The caveat segment.
fn seg_caveat(reqs: &PixelFormatRequirements) -> (r: Vec<i32>)
    ensures
        r@ == spec_caveat_segment(*reqs),
{
    let mut out: Vec<i32> = Vec::new();
    match reqs.hardware_accelerated {
        Some(accelerated) => {
            out.push(CONFIG_CAVEAT);
            out.push(
                if accelerated {
                    ATTRIB_NONE
                } else {
                    SLOW_CONFIG
                },
            );
        },
        None => {},
    }
    proof {
        assert(out@ =~= spec_caveat_segment(*reqs));
    }
    out
}

/// The colour-bits segment.
fn seg_color(reqs: &PixelFormatRequirements) -> (r: Vec<i32>)
    ensures
        r@ == spec_color_segment(*reqs),
{
    let mut out: Vec<i32> = Vec::new();
    match reqs.color_bits {
        Some(color) => {
            out.push(RED_SIZE);
            out.push((color / 3) as i32);
            out.push(GREEN_SIZE);
            out.push(
                (color / 3 + if color % 3 != 0 {
                    1u8
                } else {
                    0u8
                }) as i32,
            );
            out.push(BLUE_SIZE);
            out.push(
                (color / 3 + if color % 3 == 2 {
                    1u8
                } else {
                    0u8
                }) as i32,
            );
        },
        None => {},
    }
    proof {
        assert(out@ =~= spec_color_segment(*reqs));
    }
    out
}

/// A single optional key/value requirement segment.
fn seg_u8(key: i32, value: Option<u8>) -> (r: Vec<i32>)
    ensures
        r@ == spec_u8_segment(key, value),
{
    let mut out: Vec<i32> = Vec::new();
    match value {
        Some(v) => {
            out.push(key);
            out.push(v as i32);
        },
        None => {},
    }
    proof {
        assert(out@ =~= spec_u8_segment(key, value));
    }
    out
}

/// Build the ordered attribute descriptor for the requirements, or reject
/// a combination the backend cannot express. Runs before, and entirely
/// without, any native call.
pub fn build_descriptor(
    egl_version: (i32, i32),
    api: Api,
    version: Option<(u8, u8)>,
    reqs: &PixelFormatRequirements,
    surface_type: SurfaceType,
) -> (r: Result<Vec<i32>, CreationError>)
    requires
        api != Api::WebGl,
        reqs.x11_visual_xid matches Some(xid) ==> xid <= 0x7fff_ffff,
    ensures
        match r {
            Ok(v) => spec_descriptor_error(egl_version, api, version, *reqs) is None && v@
                == spec_descriptor(egl_version, api, version, *reqs, surface_type),
            Err(e) => spec_descriptor_error(egl_version, api, version, *reqs) == Some(e),
        },
{
    let mut out = seg_color_buffer(egl_version);
    let mut seg = seg_surface_type(surface_type);
    out.append(&mut seg);

    let mut seg = match seg_renderable(egl_version, api, version) {
        Ok(seg) => seg,
        Err(e) => {
            return Err(e);
        },
    };
    out.append(&mut seg);

    let mut seg = seg_caveat(reqs);
    out.append(&mut seg);
    let mut seg = seg_color(reqs);
    out.append(&mut seg);
    let mut seg = seg_u8(ALPHA_SIZE, reqs.alpha_bits);
    out.append(&mut seg);
    let mut seg = seg_u8(DEPTH_SIZE, reqs.depth_bits);
    out.append(&mut seg);
    let mut seg = seg_u8(STENCIL_SIZE, reqs.stencil_bits);
    out.append(&mut seg);

    if let Some(true) = reqs.double_buffer {
        return Err(CreationError::NoAvailablePixelFormat);
    }

    match reqs.multisampling {
        Some(ms) => {
            if !(ms == 0 || (ms & (ms - 1)) == 0) {
                return Err(CreationError::NoAvailablePixelFormat);
            }
            out.push(SAMPLES);
            out.push(ms as i32);
        },
        None => {},
    }

    if reqs.stereoscopy {
        return Err(CreationError::NoAvailablePixelFormat);
    }

    match reqs.x11_visual_xid {
        Some(xid) => {
            out.push(NATIVE_VISUAL_ID);
            out.push(xid as i32);
        },
        None => {},
    }

    match reqs.release_behavior {
        ReleaseBehavior::Flush => {},
        ReleaseBehavior::NoFlush => {
            return Err(CreationError::NotSupported(NotSupportedReason::ReleaseBehaviorNone));
        },
    }

    out.push(ATTRIB_NONE);
    proof {
        assert(out@ =~= spec_descriptor(egl_version, api, version, *reqs, surface_type));
    }
    Ok(out)
}

/// Whether one configuration satisfies the requirements that selection
/// checks itself: an exact match of the requested sample count (a request
/// of zero forbids multisampling) and support for the swap interval of the
/// requested vsync mode.
pub open spec fn spec_config_acceptable(
    c: ConfigCaps,
    multisampling: Option<u16>,
    desired_interval: i32,
) -> bool {
    &&& match multisampling {
        Some(n) => if n == 0 {
            c.samples <= 1
        } else {
            c.samples == n
        },
        None => true,
    }
    &&& c.min_swap_interval <= desired_interval
    &&& desired_interval <= c.max_swap_interval
}

/// The configurations of `s` acceptable for the requirements, in table
/// order.
pub open spec fn spec_candidates(
    s: Seq<ConfigCaps>,
    multisampling: Option<u16>,
    desired_interval: i32,
) -> Seq<ConfigCaps>
    decreases s.len(),
{
    if s.len() == 0 {
        seq![]
    } else {
        let rest = spec_candidates(s.drop_last(), multisampling, desired_interval);
        if spec_config_acceptable(s.last(), multisampling, desired_interval) {
            rest.push(s.last())
        } else {
            rest
        }
    }
}

/// Every candidate comes from the table and is acceptable.
pub proof fn lemma_candidates_sound(
    s: Seq<ConfigCaps>,
    multisampling: Option<u16>,
    desired_interval: i32,
)
    ensures
        forall|i: int|
            0 <= i < spec_candidates(s, multisampling, desired_interval).len() ==> {
                &&& spec_config_acceptable(
                    #[trigger] spec_candidates(s, multisampling, desired_interval)[i],
                    multisampling,
                    desired_interval,
                )
                &&& s.contains(spec_candidates(s, multisampling, desired_interval)[i])
            },
    decreases s.len(),
{
    if s.len() > 0 {
        lemma_candidates_sound(s.drop_last(), multisampling, desired_interval);
        let cs = spec_candidates(s, multisampling, desired_interval);
        let rest = spec_candidates(s.drop_last(), multisampling, desired_interval);
        assert forall|i: int| 0 <= i < cs.len() implies {
            &&& spec_config_acceptable(#[trigger] cs[i], multisampling, desired_interval)
            &&& s.contains(cs[i])
        } by {
            if i < rest.len() {
                assert(cs[i] == rest[i]);
                assert(s.drop_last().contains(rest[i]));
                let k = choose|k: int|
                    0 <= k < s.drop_last().len() && s.drop_last()[k] == rest[i];
                assert(s[k] == rest[i]);
                assert(s.contains(cs[i]));
            } else {
                assert(cs[i] == s.last());
                assert(s[s.len() - 1] == s.last());
                assert(s.contains(cs[i]));
            }
        }
    }
}

/// A table with no acceptable configuration yields no candidates, and one
/// with an acceptable configuration yields at least one.
pub proof fn lemma_candidates_complete(
    s: Seq<ConfigCaps>,
    multisampling: Option<u16>,
    desired_interval: i32,
)
    ensures
        (spec_candidates(s, multisampling, desired_interval).len() == 0) <==> (forall|i: int|
            0 <= i < s.len() ==> !spec_config_acceptable(
                #[trigger] s[i],
                multisampling,
                desired_interval,
            )),
    decreases s.len(),
{
    if s.len() > 0 {
        lemma_candidates_complete(s.drop_last(), multisampling, desired_interval);
        assert forall|j: int| 0 <= j < s.drop_last().len() implies s.drop_last()[j] == s[j] by {}
    }
}

/// The resolved pixel format of a configuration: always the driver's
/// queried answers, never the requested values.
pub open spec fn spec_pixel_format(c: ConfigCaps) -> PixelFormat {
    PixelFormat {
        hardware_accelerated: !c.slow,
        color_bits: (c.red_bits + c.green_bits + c.blue_bits) as u8,
        alpha_bits: c.alpha_bits,
        depth_bits: c.depth_bits,
        stencil_bits: c.stencil_bits,
        stereoscopy: false,
        double_buffer: true,
        multisampling: if c.samples <= 1 {
            None
        } else {
            Some(c.samples)
        },
        srgb: false,
    }
}

/// The swap-interval bounds of a configuration.
pub open spec fn spec_interval_range(c: ConfigCaps) -> SwapIntervalRange {
    SwapIntervalRange { min: c.min_swap_interval, max: c.max_swap_interval }
}

/// Resolve the queried capabilities of a configuration into the pixel
/// format reported to the caller.
pub fn pixel_format_from_caps(c: &ConfigCaps) -> (r: PixelFormat)
    requires
        c.wf(),
    ensures
        r == spec_pixel_format(*c),
{
    PixelFormat {
        hardware_accelerated: !c.slow,
        color_bits: c.red_bits + c.green_bits + c.blue_bits,
        alpha_bits: c.alpha_bits,
        depth_bits: c.depth_bits,
        stencil_bits: c.stencil_bits,
        stereoscopy: false,
        double_buffer: true,
        multisampling: if c.samples <= 1 {
            None
        } else {
            Some(c.samples)
        },
        srgb: false,
    }
}

/// Query the capabilities of every enumerated configuration and keep the
/// acceptable ones, in table order.
fn filter_configs(
    b: &Backend,
    ids: &Vec<u64>,
    multisampling: Option<u16>,
    desired_interval: i32,
) -> (r: Vec<ConfigCaps>)
    requires
        b.wf(),
        ids@ == b.spec_config_ids(),
    ensures
        r@ == spec_candidates(b.configs@, multisampling, desired_interval),
{
    let mut out: Vec<ConfigCaps> = Vec::new();
    let mut i: usize = 0;
    proof {
        assert(b.configs@.take(0) =~= Seq::<ConfigCaps>::empty());
    }
    while i < ids.len()
        invariant
            b.wf(),
            ids@ == b.spec_config_ids(),
            0 <= i <= ids@.len(),
            out@ == spec_candidates(b.configs@.take(i as int), multisampling, desired_interval),
        decreases ids@.len() - i,
    {
        proof {
            assert(ids@[i as int] == b.configs@[i as int].id);
            crate::backend::lemma_find_config_by_id(b.configs@, b.configs@[i as int]);
        }
        let caps = match b.get_config_caps(ids[i]) {
            Some(caps) => caps,
            None => {
                // Unreachable: every enumerated identifier is in the table.
                proof {
                    assert(false);
                }
                continue ;
            },
        };
        let min_ok = caps.min_swap_interval <= desired_interval;
        let max_ok = desired_interval <= caps.max_swap_interval;
        let samples_ok = match multisampling {
            Some(n) => if n == 0 {
                caps.samples <= 1
            } else {
                caps.samples == n
            },
            None => true,
        };
        if samples_ok && min_ok && max_ok {
            out.push(caps);
        }
        proof {
            assert(b.configs@.take(i + 1).drop_last() =~= b.configs@.take(i as int));
            assert(b.configs@.take(i + 1).last() == b.configs@[i as int]);
        }
        i = i + 1;
    }
    proof {
        assert(b.configs@.take(ids@.len() as int) =~= b.configs@);
    }
    out
}

/// Choose a configuration for the requirements against the backend.
///
/// The descriptor is built first: requirement combinations the backend
/// cannot express are rejected before any native call, leaving the backend
/// untouched. The enumerated configurations are then filtered by the
/// requirements selection checks itself — an exact sample-count match and
/// support for the requested vsync interval — and the filtered candidates
/// go to the caller-supplied tie-break callback. Any callback failure,
/// including an answer that names no candidate, counts as no available
/// pixel format. The returned pixel format is resolved from the queried
/// capabilities of the chosen configuration.
#[verifier::loop_isolation(false)]
pub fn choose_fbconfig<F: Fn(Vec<u64>, u64) -> Result<u64, ()>>(
    b: &mut Backend,
    display: u64,
    egl_version: (i32, i32),
    api: Api,
    version: Option<(u8, u8)>,
    pf_reqs: &PixelFormatRequirements,
    surface_type: SurfaceType,
    opengl: &GlAttributes<u64>,
    config_selector: F,
) -> (r: Result<(u64, PixelFormat, SwapIntervalRange), CreationError>)
    requires
        old(b).wf(),
        api != Api::WebGl,
        pf_reqs.x11_visual_xid matches Some(xid) ==> xid <= 0x7fff_ffff,
        forall|ids: Vec<u64>, d: u64| #[trigger] config_selector.requires((ids, d)),
    ensures
        final(b).wf(),
        final(b).only_log_changed(*old(b)),
        spec_descriptor_error(egl_version, api, version, *pf_reqs) matches Some(e) ==> r == Err::<
            (u64, PixelFormat, SwapIntervalRange),
            CreationError,
        >(e) && *final(b) == *old(b),
        spec_descriptor_error(egl_version, api, version, *pf_reqs) is None ==> final(b).log@ == old(
            b,
        ).log@.push(BackendCall::ChooseConfig),
        spec_descriptor_error(egl_version, api, version, *pf_reqs) is None && !old(
            b,
        ).choose_config_ok ==> r == Err::<(u64, PixelFormat, SwapIntervalRange), CreationError>(
            CreationError::OsError(OsFailure::ChooseConfig),
        ),
        ({
            let cands = spec_candidates(
                old(b).configs@,
                pf_reqs.multisampling,
                spec_swap_interval(opengl.vsync),
            );
            &&& match r {
                Ok((id, pf, range)) => {
                    &&& spec_descriptor_error(egl_version, api, version, *pf_reqs) is None
                    &&& old(b).choose_config_ok
                    &&& exists|i: int|
                        0 <= i < cands.len() && (#[trigger] cands[i]).id == id && pf
                            == spec_pixel_format(cands[i]) && range == spec_interval_range(
                            cands[i],
                        )
                    &&& range.min <= spec_swap_interval(opengl.vsync) <= range.max
                    &&& match pf_reqs.multisampling {
                        Some(n) => if n <= 1 {
                            pf.multisampling is None
                        } else {
                            pf.multisampling == Some(n)
                        },
                        None => true,
                    }
                },
                Err(e) => true,
            }
            &&& (spec_descriptor_error(egl_version, api, version, *pf_reqs) is None && old(
                b,
            ).choose_config_ok && r is Err ==> r == Err::<
                (u64, PixelFormat, SwapIntervalRange),
                CreationError,
            >(CreationError::NoAvailablePixelFormat))
            &&& (spec_descriptor_error(egl_version, api, version, *pf_reqs) is None && old(
                b,
            ).choose_config_ok && cands.len() == 0 ==> r == Err::<
                (u64, PixelFormat, SwapIntervalRange),
                CreationError,
            >(CreationError::NoAvailablePixelFormat))
            &&& (spec_descriptor_error(egl_version, api, version, *pf_reqs) is None && old(
                b,
            ).choose_config_ok && cands.len() > 0 ==> exists|ids: Vec<u64>, ret: Result<u64, ()>|
                {
                    &&& ids@ == cands.map_values(|c: ConfigCaps| c.id)
                    &&& #[trigger] config_selector.ensures((ids, display), ret)
                    &&& match ret {
                        Ok(chosen) => match crate::backend::spec_find_config_in(cands, chosen) {
                            Some(c) => r == Ok::<(u64, PixelFormat, SwapIntervalRange), CreationError>(
                                (chosen, spec_pixel_format(c), spec_interval_range(c)),
                            ),
                            None => r == Err::<(u64, PixelFormat, SwapIntervalRange), CreationError>(
                                CreationError::NoAvailablePixelFormat,
                            ),
                        },
                        Err(()) => r == Err::<(u64, PixelFormat, SwapIntervalRange), CreationError>(
                            CreationError::NoAvailablePixelFormat,
                        ),
                    }
                })
        }),
{
    let descriptor = match build_descriptor(egl_version, api, version, pf_reqs, surface_type) {
        Ok(d) => d,
        Err(e) => {
            return Err(e);
        },
    };

    let ids = match b.choose_configs(&descriptor) {
        Some(ids) => ids,
        None => {
            return Err(CreationError::OsError(OsFailure::ChooseConfig));
        },
    };

    if ids.len() == 0 {
        proof {
            assert(b.configs@.len() == 0);
            assert(spec_candidates(
                b.configs@,
                pf_reqs.multisampling,
                spec_swap_interval(opengl.vsync),
            ).len() == 0);
        }
        return Err(CreationError::NoAvailablePixelFormat);
    }

    // We're interested in those configurations which allow our desired
    // vsync and multisampling.
    let desired_swap_interval = opengl.vsync.get_swap_interval();
    let candidates = filter_configs(b, &ids, pf_reqs.multisampling, desired_swap_interval);

    if candidates.len() == 0 {
        return Err(CreationError::NoAvailablePixelFormat);
    }

    let mut candidate_ids: Vec<u64> = Vec::new();
    let mut i: usize = 0;
    while i < candidates.len()
        invariant
            0 <= i <= candidates@.len(),
            candidate_ids@ == candidates@.take(i as int).map_values(|c: ConfigCaps| c.id),
        decreases candidates@.len() - i,
    {
        candidate_ids.push(candidates[i].id);
        proof {
            assert(candidates@.take(i + 1) =~= candidates@.take(i as int).push(
                candidates@[i as int],
            ));
        }
        i = i + 1;
    }
    proof {
        assert(candidates@.take(candidates@.len() as int) =~= candidates@);
    }

    let ghost ids_passed = candidate_ids;
    let selection = config_selector(candidate_ids, display);
    let chosen = match selection {
        Ok(chosen) => chosen,
        Err(()) => {
            proof {
                assert(config_selector.ensures((ids_passed, display), selection));
            }
            return Err(CreationError::NoAvailablePixelFormat);
        },
    };

    // The callback may answer with anything; only an answer that names a
    // candidate counts, and the first candidate carrying the answered
    // identifier is the one chosen.
    let ghost cands = spec_candidates(
        old(b).configs@,
        pf_reqs.multisampling,
        spec_swap_interval(opengl.vsync),
    );
    let mut j: usize = 0;
    proof {
        assert(cands.skip(0) =~= cands);
    }
    while j < candidates.len()
        invariant
            0 <= j <= candidates@.len(),
            crate::backend::spec_find_config_in(cands, chosen)
                == crate::backend::spec_find_config_in(cands.skip(j as int), chosen),
        decreases candidates@.len() - j,
    {
        proof {
            assert(cands.skip(j as int)[0] == cands[j as int]);
            assert(cands.skip(j as int).skip(1) =~= cands.skip(j + 1));
        }
        if candidates[j].id == chosen {
            let caps = candidates[j];
            proof {
                lemma_candidates_sound(
                    old(b).configs@,
                    pf_reqs.multisampling,
                    spec_swap_interval(opengl.vsync),
                );
                assert(caps == cands[j as int]);
                assert(old(b).configs@.contains(caps));
                let k = choose|k: int|
                    0 <= k < old(b).configs@.len() && old(b).configs@[k] == caps;
                assert(old(b).configs@[k].wf());
                assert(crate::backend::spec_find_config_in(cands, chosen) == Some(caps));
                assert(config_selector.ensures((ids_passed, display), selection));
            }
            let pixel_format = pixel_format_from_caps(&caps);
            let range = SwapIntervalRange {
                min: caps.min_swap_interval,
                max: caps.max_swap_interval,
            };
            return Ok((chosen, pixel_format, range));
        }
        j = j + 1;
    }

    proof {
        assert(cands.skip(cands.len() as int) =~= Seq::<ConfigCaps>::empty());
        assert(crate::backend::spec_find_config_in(cands, chosen) is None);
        assert(config_selector.ensures((ids_passed, display), selection));
    }
    Err(CreationError::NoAvailablePixelFormat)
}

} // verus!
