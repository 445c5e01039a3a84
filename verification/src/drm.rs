//! DRM fourcc codes of the pixel formats, as the kernel's DMA-BUF
//! interfaces name them.
use vstd::prelude::*;

use drm_fourcc::DrmFourcc;

use crate::geometry::PixelFormat;
use crate::text::same_text;

verus! {

/// `DrmFourcc::Argb8888 as u32` in the drm-fourcc crate: the code of the
/// little-endian ARGB format ("AR24"), 875713089.
#[verifier::external_body]
fn drm_argb8888() -> (c: u32)
    ensures
        c == 875713089,
{
    DrmFourcc::Argb8888 as u32
}

/// `DrmFourcc::Abgr8888 as u32` in the drm-fourcc crate ("AB24"), 875708993.
#[verifier::external_body]
fn drm_abgr8888() -> (c: u32)
    ensures
        c == 875708993,
{
    DrmFourcc::Abgr8888 as u32
}

/// `DrmFourcc::Bgra8888 as u32` in the drm-fourcc crate ("BA24"), 875708738.
#[verifier::external_body]
fn drm_bgra8888() -> (c: u32)
    ensures
        c == 875708738,
{
    DrmFourcc::Bgra8888 as u32
}

/// `DrmFourcc::Rgb888 as u32` in the drm-fourcc crate ("RG24"), 875710290.
#[verifier::external_body]
fn drm_rgb888() -> (c: u32)
    ensures
        c == 875710290,
{
    DrmFourcc::Rgb888 as u32
}

/// `DrmFourcc::Bgr888 as u32` in the drm-fourcc crate ("BG24"), 875710274.
#[verifier::external_body]
fn drm_bgr888() -> (c: u32)
    ensures
        c == 875710274,
{
    DrmFourcc::Bgr888 as u32
}

/// The DRM code of a pixel format. DRM names formats by their order in a
/// little-endian 32-bit word, so byte order BGRA is DRM's ARGB8888.
pub open spec fn spec_drm_code(format: PixelFormat) -> u32 {
    match format {
        PixelFormat::BGRA8888 => 875713089,
        PixelFormat::RGBA8888 => 875708993,
        PixelFormat::ARGB8888 => 875708738,
        PixelFormat::RGB888 => 875710290,
        PixelFormat::BGR888 => 875710274,
    }
}

impl PixelFormat {
    /// Get the DRM fourcc code for this format (used for DMA-BUF).
    pub fn drm_fourcc(&self) -> (c: u32)
        ensures
            c == spec_drm_code(*self),
    {
        match self {
            PixelFormat::BGRA8888 => drm_argb8888(),
            PixelFormat::RGBA8888 => drm_abgr8888(),
            PixelFormat::ARGB8888 => drm_bgra8888(),
            PixelFormat::RGB888 => drm_rgb888(),
            PixelFormat::BGR888 => drm_bgr888(),
        }
    }
}

/// DRM code of little-endian ARGB, the layout screen captures usually have.
pub const DRM_FORMAT_ARGB8888: u32 = 0x34325241;

/// DRM code of little-endian XRGB (no alpha).
pub const DRM_FORMAT_XRGB8888: u32 = 0x34325258;

/// The fourcc code for a format hint: ARGB for "ARGB8888" or "BGRA", and
/// XRGB for "XRGB8888", "BGRX", "BGRx", any other hint or none.
pub fn guess_fourcc(format_hint: Option<&str>) -> (c: u32)
    ensures
        c == if format_hint matches Some(h) && (h@ == "ARGB8888"@ || h@ == "BGRA"@) {
            DRM_FORMAT_ARGB8888
        } else {
            DRM_FORMAT_XRGB8888
        },
{
    match format_hint {
        Some(h) => {
            if same_text(h, "ARGB8888") || same_text(h, "BGRA") {
                DRM_FORMAT_ARGB8888
            } else {
                DRM_FORMAT_XRGB8888
            }
        },
        None => DRM_FORMAT_XRGB8888,
    }
}

} // verus!
