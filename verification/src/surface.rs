//! The presentation surface as the context sees it: what it offers, how it is
//! configured, and how acquiring an image from it can fail.

use vstd::prelude::*;

verus! {

/// A size in pixels.
#[derive(Clone, Copy, Debug, PartialEq, Eq, Structural)]
pub struct PhysicalSize {
    pub width: u32,
    pub height: u32,
}

/// Why the surface handed out no image.
#[derive(Clone, Copy, Debug, PartialEq, Eq, Structural)]
pub enum SurfaceError {
    /// Acquiring the image took too long.
    Timeout,
    /// The surface has changed and must be configured again.
    Outdated,
    /// The surface was lost and must be configured again.
    Lost,
    /// No memory is left.
    OutOfMemory,
    /// Any other failure.
    Other,
}

/// What a surface offers to an adapter. A format is named by its place in the
/// surface's list; `srgb_formats` says of each whether it has the standard
/// colour encoding. Present modes and alpha modes are named by their place too,
/// and only their number is kept.
#[derive(Clone, Debug, PartialEq, Eq)]
pub struct SurfaceCapabilities {
    pub srgb_formats: Vec<bool>,
    pub present_modes: usize,
    pub alpha_modes: usize,
}

/// A texture format of wgpu. Nothing of its inside is seen here.
#[verifier::external_type_specification]
#[verifier::external_body]
pub struct ExTextureFormat(wgpu::TextureFormat);

/// `wgpu::TextureFormat::is_srgb`: whether the format has the standard colour
/// encoding. Trusted to return; nothing is claimed of the answer.
#[verifier::external_body]
fn format_is_srgb(format: &wgpu::TextureFormat) -> (r: bool) {
    format.is_srgb()
}

impl SurfaceCapabilities {
    /// The capabilities of a surface that lists `formats` and offers
    /// `present_modes` present modes and `alpha_modes` alpha modes. The flag of
    /// each format is what wgpu says of it.
    pub fn of(formats: &Vec<wgpu::TextureFormat>, present_modes: usize, alpha_modes: usize) -> (r:
        SurfaceCapabilities)
        ensures
            r.srgb_formats@.len() == formats@.len(),
            r.present_modes == present_modes,
            r.alpha_modes == alpha_modes,
            r.usable() <==> formats@.len() > 0 && present_modes > 0 && alpha_modes > 0,
    {
        let mut srgb_formats: Vec<bool> = Vec::new();
        let mut i: usize = 0;
        while i < formats.len()
            invariant
                i <= formats@.len(),
                srgb_formats@.len() == i,
            decreases formats@.len() - i,
        {
            srgb_formats.push(format_is_srgb(&formats[i]));
            i += 1;
        }
        SurfaceCapabilities { srgb_formats, present_modes, alpha_modes }
    }

    /// The surface offers at least one format, one present mode and one alpha
    /// mode.
    pub open spec fn usable(&self) -> bool {
        &&& self.srgb_formats@.len() > 0
        &&& self.present_modes > 0
        &&& self.alpha_modes > 0
    }
}

/// How the surface is configured. Its images are render attachments and have no
/// further view formats.
#[derive(Clone, Copy, Debug, PartialEq, Eq, Structural)]
pub struct SurfaceConfiguration {
    /// The place of the chosen format in the surface's list.
    pub format: usize,
    pub width: u32,
    pub height: u32,
    /// The place of the chosen present mode in the surface's list.
    pub present_mode: usize,
    /// The place of the chosen alpha mode in the surface's list.
    pub alpha_mode: usize,
    pub desired_maximum_frame_latency: u32,
}

/// The number of frames that may be queued for presentation.
pub const FRAME_LATENCY: u32 = 2;

/// `k` is the place of the first format with the standard colour encoding.
pub open spec fn first_srgb(flags: Seq<bool>, k: int) -> bool {
    &&& 0 <= k < flags.len()
    &&& flags[k]
    &&& forall|j: int| 0 <= j < k ==> !#[trigger] flags[j]
}

/// The place of the format to use: the first one with the standard colour
/// encoding, or the first one of all where none has it.
pub open spec fn preferred_format(flags: Seq<bool>, k: int) -> bool {
    ||| first_srgb(flags, k)
    ||| (k == 0 && forall|j: int| 0 <= j < flags.len() ==> !#[trigger] flags[j])
}

/// Chooses the surface format among those offered.
pub fn select_format(srgb_formats: &Vec<bool>) -> (k: usize)
    requires
        srgb_formats@.len() > 0,
    ensures
        k < srgb_formats@.len(),
        preferred_format(srgb_formats@, k as int),
{
    let mut i: usize = 0;
    while i < srgb_formats.len()
        invariant
            i <= srgb_formats@.len(),
            forall|j: int| 0 <= j < i ==> !#[trigger] srgb_formats@[j],
        decreases srgb_formats@.len() - i,
    {
        if srgb_formats[i] {
            return i;
        }
        i += 1;
    }
    0
}

/// Only one place meets `preferred_format`.
pub proof fn lemma_preferred_format_unique(flags: Seq<bool>, a: int, b: int)
    requires
        preferred_format(flags, a),
        preferred_format(flags, b),
    ensures
        a == b,
{
    if first_srgb(flags, a) && first_srgb(flags, b) {
        if a < b {
            assert(!flags[a]);
        } else if b < a {
            assert(!flags[b]);
        }
    } else if first_srgb(flags, a) {
        assert(!flags[a]);
    } else if first_srgb(flags, b) {
        assert(!flags[b]);
    }
}

impl SurfaceConfiguration {
    /// The configuration for a surface of `width` by `height` pixels: the
    /// preferred format, the first present mode and the first alpha mode that
    /// the surface offers, and a frame latency of two.
    pub fn new(caps: &SurfaceCapabilities, width: u32, height: u32) -> (r: SurfaceConfiguration)
        requires
            caps.usable(),
        ensures
            preferred_format(caps.srgb_formats@, r.format as int),
            r.width == width,
            r.height == height,
            r.present_mode == 0,
            r.alpha_mode == 0,
            r.desired_maximum_frame_latency == FRAME_LATENCY,
    {
        SurfaceConfiguration {
            format: select_format(&caps.srgb_formats),
            width,
            height,
            present_mode: 0,
            alpha_mode: 0,
            desired_maximum_frame_latency: FRAME_LATENCY,
        }
    }
}

} // verus!
