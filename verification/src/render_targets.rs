//! The render-target choices of the renderer: which passes run on given hardware and
//! settings, the sizes of the bloom mip chain, and the descriptors of UI textures.
use crate::enums_types::FxaaLevels;
use vstd::prelude::*;

verus! {

/// One level of the bloom mip chain: a framebuffer, its texture and its size.
pub struct BloomMip {
    fbo: u32,
    tex: u32,
    w: i32,
    h: i32,
}

impl BloomMip {
    /// A mip level with framebuffer `fbo`, texture `tex` and size `w` x `h`.
    pub fn new(fbo: u32, tex: u32, w: i32, h: i32) -> (m: Self)
        ensures
            m.spec_fbo() == fbo,
            m.spec_tex() == tex,
            m.spec_w() == w,
            m.spec_h() == h,
    {
        BloomMip { fbo, tex, w, h }
    }

    pub closed spec fn spec_fbo(&self) -> u32 {
        self.fbo
    }

    pub closed spec fn spec_tex(&self) -> u32 {
        self.tex
    }

    pub closed spec fn spec_w(&self) -> i32 {
        self.w
    }

    pub closed spec fn spec_h(&self) -> i32 {
        self.h
    }

    pub fn fbo(&self) -> (r: u32)
        ensures
            r == self.spec_fbo(),
    {
        self.fbo
    }

    pub fn tex(&self) -> (r: u32)
        ensures
            r == self.spec_tex(),
    {
        self.tex
    }

    pub fn w(&self) -> (r: i32)
        ensures
            r == self.spec_w(),
    {
        self.w
    }

    pub fn h(&self) -> (r: i32)
        ensures
            r == self.spec_h(),
    {
        self.h
    }
}

/// Solid one-pixel textures bound where a material lacks a texture.
pub struct DefaultTextures {
    pub white: u32,
    pub black: u32,
    pub opaque: u32,
}

/// The color format of the offscreen render targets.
#[derive(Clone, Copy, Debug, PartialEq, Eq, Structural)]
pub enum RenderTargetColorFormat {
    Rgba16F,
    Rgba8,
}

impl RenderTargetColorFormat {
    pub open spec fn spec_label(self) -> Seq<char> {
        match self {
            RenderTargetColorFormat::Rgba16F => "RGBA16F"@,
            RenderTargetColorFormat::Rgba8 => "RGBA8"@,
        }
    }

    /// The name under which the format is logged.
    pub fn label(self) -> (s: &'static str)
        ensures
            s@ == self.spec_label(),
    {
        match self {
            Self::Rgba16F => "RGBA16F",
            Self::Rgba8 => "RGBA8",
        }
    }
}

/// The depth format of the offscreen render targets.
#[derive(Clone, Copy, Debug, PartialEq, Eq, Structural)]
pub enum RenderTargetDepthFormat {
    DepthComponent24,
}

impl RenderTargetDepthFormat {
    pub open spec fn spec_label(self) -> Seq<char> {
        "DEPTH_COMPONENT24"@
    }

    /// The name under which the format is logged.
    pub fn label(self) -> (s: &'static str)
        ensures
            s@ == self.spec_label(),
    {
        match self {
            Self::DepthComponent24 => "DEPTH_COMPONENT24",
        }
    }
}

/// Which offscreen passes the renderer runs.
#[derive(Clone, Copy, Debug, PartialEq, Eq, Structural)]
pub struct RenderTargetPolicy {
    pub compatibility_mode: bool,
    pub color_format: RenderTargetColorFormat,
    pub depth_format: RenderTargetDepthFormat,
    pub hdr_enabled: bool,
    pub bloom_enabled: bool,
    pub msaa_enabled: bool,
    pub fxaa_enabled: bool,
    pub mrt_enabled: bool,
}

/// The policy for the given hardware and settings: on GLES-like hardware, or when the
/// WebGL compatibility mode is asked for, everything but plain 8-bit targets is off;
/// otherwise HDR, bloom and multiple render targets are on, MSAA runs unless the
/// level is 1, and FXAA runs when MSAA is below 2 samples and FXAA is not off.
pub open spec fn spec_policy(
    is_gles_like: bool,
    webgl_compatibility_mode: bool,
    msaa_level: u32,
    fxaa_level: FxaaLevels,
) -> RenderTargetPolicy {
    let compatibility_mode = webgl_compatibility_mode || is_gles_like;
    if compatibility_mode {
        RenderTargetPolicy {
            compatibility_mode,
            color_format: RenderTargetColorFormat::Rgba8,
            depth_format: RenderTargetDepthFormat::DepthComponent24,
            hdr_enabled: false,
            bloom_enabled: false,
            msaa_enabled: false,
            fxaa_enabled: false,
            mrt_enabled: false,
        }
    } else {
        RenderTargetPolicy {
            compatibility_mode,
            color_format: RenderTargetColorFormat::Rgba16F,
            depth_format: RenderTargetDepthFormat::DepthComponent24,
            hdr_enabled: true,
            bloom_enabled: true,
            msaa_enabled: msaa_level != 1,
            fxaa_enabled: msaa_level < 2 && fxaa_level != FxaaLevels::Off,
            mrt_enabled: true,
        }
    }
}

impl RenderTargetPolicy {
    /// Chooses the render targets for the hardware's capabilities and the settings.
    pub fn for_capabilities(
        is_gles_like: bool,
        webgl_compatibility_mode: bool,
        msaa_level: u32,
        fxaa_level: FxaaLevels,
    ) -> (p: Self)
        ensures
            p == spec_policy(is_gles_like, webgl_compatibility_mode, msaa_level, fxaa_level),
    {
        let compatibility_mode = webgl_compatibility_mode || is_gles_like;
        if compatibility_mode {
            return Self {
                compatibility_mode,
                color_format: RenderTargetColorFormat::Rgba8,
                depth_format: RenderTargetDepthFormat::DepthComponent24,
                hdr_enabled: false,
                bloom_enabled: false,
                msaa_enabled: false,
                fxaa_enabled: false,
                mrt_enabled: false,
            };
        }
        Self {
            compatibility_mode,
            color_format: RenderTargetColorFormat::Rgba16F,
            depth_format: RenderTargetDepthFormat::DepthComponent24,
            hdr_enabled: true,
            bloom_enabled: true,
            msaa_enabled: msaa_level != 1,
            fxaa_enabled: msaa_level < 2 && fxaa_level != FxaaLevels::Off,
            mrt_enabled: true,
        }
    }
}

/// Bloom and HDR run only with multiple render targets, compatibility mode turns
/// every extra pass off, and FXAA runs only below 2 MSAA samples.
pub proof fn lemma_policy_consistent(
    is_gles_like: bool,
    webgl_compatibility_mode: bool,
    msaa_level: u32,
    fxaa_level: FxaaLevels,
)
    ensures
        ({
            let p = spec_policy(is_gles_like, webgl_compatibility_mode, msaa_level, fxaa_level);
            &&& (p.bloom_enabled || p.hdr_enabled) ==> p.mrt_enabled
            &&& p.compatibility_mode ==> !p.hdr_enabled && !p.bloom_enabled && !p.msaa_enabled
                && !p.fxaa_enabled
            &&& p.fxaa_enabled ==> msaa_level < 2 && fxaa_level != FxaaLevels::Off
        }),
{
}

/// The sizes of the bloom mip levels below a `w` x `h` level: each is half the one
/// above, for at most `levels` levels, stopping before a side would drop below 2.
pub open spec fn mip_chain(w: int, h: int, levels: nat) -> Seq<(i32, i32)>
    decreases levels,
{
    if levels == 0 || w < 2 || h < 2 {
        Seq::empty()
    } else {
        seq![(w as i32, h as i32)] + mip_chain(w / 2, h / 2, (levels - 1) as nat)
    }
}

/// The sizes of the bloom mip chain for a framebuffer of `fb_width` x `fb_height`:
/// up to six levels, starting at half the framebuffer. A side too large for an `i32`
/// turns negative when converted and gives no levels.
pub open spec fn spec_bloom_mip_sizes(fb_width: u32, fb_height: u32) -> Seq<(i32, i32)> {
    if fb_width > i32::MAX || fb_height > i32::MAX {
        Seq::empty()
    } else {
        mip_chain(fb_width as int / 2, fb_height as int / 2, 6)
    }
}

/// Computes the sizes of the bloom mip chain for a framebuffer of `fb_width` x `fb_height`.
pub fn bloom_mip_sizes(fb_width: u32, fb_height: u32) -> (sizes: Vec<(i32, i32)>)
    ensures
        sizes@ == spec_bloom_mip_sizes(fb_width, fb_height),
{
    let mut sizes: Vec<(i32, i32)> = Vec::new();
    if fb_width > 2147483647u32 || fb_height > 2147483647u32 {
        return sizes;
    }
    let mut w: u32 = fb_width / 2;
    let mut h: u32 = fb_height / 2;
    let mut level: u32 = 0;
    while level < 6 && w >= 2 && h >= 2
        invariant
            level <= 6,
            w <= i32::MAX,
            h <= i32::MAX,
            fb_width <= i32::MAX,
            fb_height <= i32::MAX,
            sizes@ + mip_chain(w as int, h as int, (6 - level) as nat) == mip_chain(fb_width as int / 2, fb_height as int / 2, 6),
        decreases 6 - level,
    {
        let ghost before = sizes@;
        sizes.push((w as i32, h as i32));
        proof {
            assert(mip_chain(w as int, h as int, (6 - level) as nat) == seq![(w as i32, h as i32)] + mip_chain(
                w as int / 2,
                h as int / 2,
                (6 - level - 1) as nat,
            ));
            assert(sizes@ + mip_chain(w as int / 2, h as int / 2, (6 - level - 1) as nat) =~= before + mip_chain(
                w as int,
                h as int,
                (6 - level) as nat,
            ));
        }
        w = w / 2;
        h = h / 2;
        level = level + 1;
    }
    proof {
        assert(mip_chain(w as int, h as int, (6 - level) as nat) == Seq::<(i32, i32)>::empty());
        assert(sizes@ + Seq::<(i32, i32)>::empty() =~= sizes@);
    }
    sizes
}

/// The pixel layout of a UI texture.
#[derive(Clone, Copy, Debug, PartialEq, Eq, Structural)]
pub enum UiTextureFormat {
    Rgba,
    Rgba8,
    AlphaMask,
}

/// How a UI texture is filtered.
#[derive(Clone, Copy, Debug, PartialEq, Eq, Structural)]
pub enum UiTextureFilter {
    Nearest,
    Linear,
}

/// How a UI texture wraps.
#[derive(Clone, Copy, Debug, PartialEq, Eq, Structural)]
pub enum UiTextureWrap {
    ClampToEdge,
    Repeat,
}

/// The size and sampling of a UI texture.
#[derive(Clone, Copy, Debug, PartialEq, Eq, Structural)]
pub struct UiTextureDescriptor {
    pub width: u32,
    pub height: u32,
    pub format: UiTextureFormat,
    pub min_filter: UiTextureFilter,
    pub mag_filter: UiTextureFilter,
    pub wrap_s: UiTextureWrap,
    pub wrap_t: UiTextureWrap,
}

/// A pixel buffer used to stream UI texture updates.
#[derive(Clone, Copy)]
pub struct UiUploadBuffer {
    id: u32,
}

impl UiUploadBuffer {
    pub closed spec fn spec_id(&self) -> u32 {
        self.id
    }

    /// Wraps the buffer object `id`.
    pub fn from_id(id: u32) -> (b: Self)
        ensures
            b.spec_id() == id,
    {
        UiUploadBuffer { id }
    }

    /// The buffer object.
    pub fn id(&self) -> (r: u32)
        ensures
            r == self.spec_id(),
    {
        self.id
    }
}

/// A descriptor of the given size and format, clamped at the edges, with one filter
/// for minifying and magnifying.
pub open spec fn clamped(width: u32, height: u32, format: UiTextureFormat, filter: UiTextureFilter) -> UiTextureDescriptor {
    UiTextureDescriptor {
        width,
        height,
        format,
        min_filter: filter,
        mag_filter: filter,
        wrap_s: UiTextureWrap::ClampToEdge,
        wrap_t: UiTextureWrap::ClampToEdge,
    }
}

impl UiTextureDescriptor {
    /// An RGBA texture, linearly filtered and clamped.
    pub fn rgba_linear_clamped(width: u32, height: u32) -> (d: Self)
        ensures
            d == clamped(width, height, UiTextureFormat::Rgba, UiTextureFilter::Linear),
    {
        Self {
            width,
            height,
            format: UiTextureFormat::Rgba,
            min_filter: UiTextureFilter::Linear,
            mag_filter: UiTextureFilter::Linear,
            wrap_s: UiTextureWrap::ClampToEdge,
            wrap_t: UiTextureWrap::ClampToEdge,
        }
    }

    /// An RGBA texture, nearest filtered and clamped.
    pub fn rgba_nearest_clamped(width: u32, height: u32) -> (d: Self)
        ensures
            d == clamped(width, height, UiTextureFormat::Rgba, UiTextureFilter::Nearest),
    {
        Self {
            width,
            height,
            format: UiTextureFormat::Rgba,
            min_filter: UiTextureFilter::Nearest,
            mag_filter: UiTextureFilter::Nearest,
            wrap_s: UiTextureWrap::ClampToEdge,
            wrap_t: UiTextureWrap::ClampToEdge,
        }
    }

    /// An 8-bit RGBA texture, linearly filtered and clamped.
    pub fn rgba8_linear_clamped(width: u32, height: u32) -> (d: Self)
        ensures
            d == clamped(width, height, UiTextureFormat::Rgba8, UiTextureFilter::Linear),
    {
        Self {
            width,
            height,
            format: UiTextureFormat::Rgba8,
            min_filter: UiTextureFilter::Linear,
            mag_filter: UiTextureFilter::Linear,
            wrap_s: UiTextureWrap::ClampToEdge,
            wrap_t: UiTextureWrap::ClampToEdge,
        }
    }

    /// A single-channel alpha mask, linearly filtered and clamped.
    pub fn alpha_linear_clamped(width: u32, height: u32) -> (d: Self)
        ensures
            d == clamped(width, height, UiTextureFormat::AlphaMask, UiTextureFilter::Linear),
    {
        Self {
            width,
            height,
            format: UiTextureFormat::AlphaMask,
            min_filter: UiTextureFilter::Linear,
            mag_filter: UiTextureFilter::Linear,
            wrap_s: UiTextureWrap::ClampToEdge,
            wrap_t: UiTextureWrap::ClampToEdge,
        }
    }
}

/// Whether uploading pixels of this format needs a byte-aligned unpack alignment.
pub fn needs_byte_unpack_alignment(format: UiTextureFormat) -> (b: bool)
    ensures
        b <==> format is AlphaMask,
{
    matches!(format, UiTextureFormat::AlphaMask)
}

/// The OpenGL enumerants that the renderer passes for UI textures and reads back as
/// framebuffer states, with the values the OpenGL specification gives them.
pub const GL_RGBA: u32 = 0x1908;
pub const GL_RGBA8: u32 = 0x8058;
pub const GL_R8: u32 = 0x8229;
pub const GL_RED: u32 = 0x1903;
pub const GL_NEAREST: u32 = 0x2600;
pub const GL_LINEAR: u32 = 0x2601;
pub const GL_CLAMP_TO_EDGE: u32 = 0x812F;
pub const GL_REPEAT: u32 = 0x2901;
pub const GL_NEAREST_MIPMAP_LINEAR: u32 = 0x2702;
pub const GL_LINEAR_MIPMAP_LINEAR: u32 = 0x2703;
pub const GL_FRAMEBUFFER_COMPLETE: u32 = 0x8CD5;
pub const GL_FRAMEBUFFER_UNDEFINED: u32 = 0x8219;
pub const GL_FRAMEBUFFER_INCOMPLETE_ATTACHMENT: u32 = 0x8CD6;
pub const GL_FRAMEBUFFER_INCOMPLETE_MISSING_ATTACHMENT: u32 = 0x8CD7;
pub const GL_FRAMEBUFFER_INCOMPLETE_DRAW_BUFFER: u32 = 0x8CDB;
pub const GL_FRAMEBUFFER_INCOMPLETE_READ_BUFFER: u32 = 0x8CDC;
pub const GL_FRAMEBUFFER_UNSUPPORTED: u32 = 0x8CDD;
pub const GL_FRAMEBUFFER_INCOMPLETE_MULTISAMPLE: u32 = 0x8D56;
pub const GL_FRAMEBUFFER_INCOMPLETE_LAYER_TARGETS: u32 = 0x8DA8;

/// The name under which a framebuffer state is logged.
pub open spec fn spec_framebuffer_status_label(status: u32) -> Seq<char> {
    if status == GL_FRAMEBUFFER_COMPLETE {
        "FRAMEBUFFER_COMPLETE"@
    } else if status == GL_FRAMEBUFFER_UNDEFINED {
        "FRAMEBUFFER_UNDEFINED"@
    } else if status == GL_FRAMEBUFFER_INCOMPLETE_ATTACHMENT {
        "FRAMEBUFFER_INCOMPLETE_ATTACHMENT"@
    } else if status == GL_FRAMEBUFFER_INCOMPLETE_MISSING_ATTACHMENT {
        "FRAMEBUFFER_INCOMPLETE_MISSING_ATTACHMENT"@
    } else if status == GL_FRAMEBUFFER_INCOMPLETE_DRAW_BUFFER {
        "FRAMEBUFFER_INCOMPLETE_DRAW_BUFFER"@
    } else if status == GL_FRAMEBUFFER_INCOMPLETE_READ_BUFFER {
        "FRAMEBUFFER_INCOMPLETE_READ_BUFFER"@
    } else if status == GL_FRAMEBUFFER_UNSUPPORTED {
        "FRAMEBUFFER_UNSUPPORTED"@
    } else if status == GL_FRAMEBUFFER_INCOMPLETE_MULTISAMPLE {
        "FRAMEBUFFER_INCOMPLETE_MULTISAMPLE"@
    } else if status == GL_FRAMEBUFFER_INCOMPLETE_LAYER_TARGETS {
        "FRAMEBUFFER_INCOMPLETE_LAYER_TARGETS"@
    } else {
        "UNKNOWN_FRAMEBUFFER_STATUS"@
    }
}

/// The name of a framebuffer state, for the log.
pub fn framebuffer_status_label(status: u32) -> (s: &'static str)
    ensures
        s@ == spec_framebuffer_status_label(status),
{
    if status == GL_FRAMEBUFFER_COMPLETE {
        "FRAMEBUFFER_COMPLETE"
    } else if status == GL_FRAMEBUFFER_UNDEFINED {
        "FRAMEBUFFER_UNDEFINED"
    } else if status == GL_FRAMEBUFFER_INCOMPLETE_ATTACHMENT {
        "FRAMEBUFFER_INCOMPLETE_ATTACHMENT"
    } else if status == GL_FRAMEBUFFER_INCOMPLETE_MISSING_ATTACHMENT {
        "FRAMEBUFFER_INCOMPLETE_MISSING_ATTACHMENT"
    } else if status == GL_FRAMEBUFFER_INCOMPLETE_DRAW_BUFFER {
        "FRAMEBUFFER_INCOMPLETE_DRAW_BUFFER"
    } else if status == GL_FRAMEBUFFER_INCOMPLETE_READ_BUFFER {
        "FRAMEBUFFER_INCOMPLETE_READ_BUFFER"
    } else if status == GL_FRAMEBUFFER_UNSUPPORTED {
        "FRAMEBUFFER_UNSUPPORTED"
    } else if status == GL_FRAMEBUFFER_INCOMPLETE_MULTISAMPLE {
        "FRAMEBUFFER_INCOMPLETE_MULTISAMPLE"
    } else if status == GL_FRAMEBUFFER_INCOMPLETE_LAYER_TARGETS {
        "FRAMEBUFFER_INCOMPLETE_LAYER_TARGETS"
    } else {
        "UNKNOWN_FRAMEBUFFER_STATUS"
    }
}

/// The internal format a UI texture of this format is stored in.
pub fn ui_texture_internal_format(format: UiTextureFormat) -> (r: i32)
    ensures
        r == match format {
            UiTextureFormat::Rgba => GL_RGBA as i32,
            UiTextureFormat::Rgba8 => GL_RGBA8 as i32,
            UiTextureFormat::AlphaMask => GL_R8 as i32,
        },
{
    match format {
        UiTextureFormat::Rgba => GL_RGBA as i32,
        UiTextureFormat::Rgba8 => GL_RGBA8 as i32,
        UiTextureFormat::AlphaMask => GL_R8 as i32,
    }
}

/// The pixel format in which a UI texture of this format is uploaded.
pub fn ui_texture_upload_format(format: UiTextureFormat) -> (r: u32)
    ensures
        r == match format {
            UiTextureFormat::AlphaMask => GL_RED,
            _ => GL_RGBA,
        },
{
    match format {
        UiTextureFormat::Rgba => GL_RGBA,
        UiTextureFormat::Rgba8 => GL_RGBA,
        UiTextureFormat::AlphaMask => GL_RED,
    }
}

/// The texture filter parameter of a UI texture filter.
pub fn ui_texture_filter(filter: UiTextureFilter) -> (r: i32)
    ensures
        r == match filter {
            UiTextureFilter::Nearest => GL_NEAREST as i32,
            UiTextureFilter::Linear => GL_LINEAR as i32,
        },
{
    match filter {
        UiTextureFilter::Nearest => GL_NEAREST as i32,
        UiTextureFilter::Linear => GL_LINEAR as i32,
    }
}

/// The texture wrap parameter of a UI texture wrap mode.
pub fn ui_texture_wrap(wrap: UiTextureWrap) -> (r: i32)
    ensures
        r == match wrap {
            UiTextureWrap::ClampToEdge => GL_CLAMP_TO_EDGE as i32,
            UiTextureWrap::Repeat => GL_REPEAT as i32,
        },
{
    match wrap {
        UiTextureWrap::ClampToEdge => GL_CLAMP_TO_EDGE as i32,
        UiTextureWrap::Repeat => GL_REPEAT as i32,
    }
}

/// The settings whose change takes effect only after a restart.
#[derive(Clone, Copy, Debug, PartialEq, Eq, Structural)]
pub struct RestartSettings {
    pub msaa_level: u32,
    pub debug_mode: bool,
    pub webgl_compatibility_mode: bool,
}

/// Whether going from the settings `old` to `new` needs a restart: the MSAA level, the
/// debug mode or the WebGL compatibility mode changed.
pub fn settings_require_restart(old: RestartSettings, new: RestartSettings) -> (b: bool)
    ensures
        b == (old != new),
{
    old.msaa_level != new.msaa_level || old.debug_mode != new.debug_mode
        || old.webgl_compatibility_mode != new.webgl_compatibility_mode
}

} // verus!
