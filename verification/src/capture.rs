//! Capture errors and the capabilities a capture backend reports.
use vstd::prelude::*;

use crate::error::{prefixed, prefixed_io_error};
use crate::geometry::PixelFormat;
use crate::text::{decimal, push_decimal};
use vstd::string::to_string_from_display_ensures;

verus! {

/// Main error type for capture operations.
#[derive(Debug)]
pub enum CaptureError {
    /// Backend initialization failed.
    InitFailed(String),
    /// Capture operation failed.
    CaptureFailed(String),
    /// Unsupported pixel format.
    UnsupportedFormat(String),
    /// Invalid region.
    InvalidRegion(String),
    /// Backend not available on this system.
    NotAvailable(String),
    /// IO error.
    Io(std::io::Error),
    /// Generic error.
    Other(String),
}

impl CaptureError {
    /// The message of the error, as shown to the user; for an I/O error it
    /// is `"IO error: "` followed by what the I/O error displays.
    pub fn to_string(&self) -> (s: String)
        ensures
            match self {
                CaptureError::InitFailed(m) => s@ == "Backend initialization failed: "@ + m@,
                CaptureError::CaptureFailed(m) => s@ == "Capture failed: "@ + m@,
                CaptureError::UnsupportedFormat(m) => s@ == "Unsupported pixel format: "@ + m@,
                CaptureError::InvalidRegion(m) => s@ == "Invalid region: "@ + m@,
                CaptureError::NotAvailable(m) => s@ == "Backend not available: "@ + m@,
                CaptureError::Io(e) => exists|text: String|
                    to_string_from_display_ensures::<std::io::Error>(e, text) && s@
                        == "IO error: "@ + text@,
                CaptureError::Other(m) => s@ == m@,
            },
    {
        match self {
            CaptureError::InitFailed(m) => prefixed("Backend initialization failed: ", m.as_str()),
            CaptureError::CaptureFailed(m) => prefixed("Capture failed: ", m.as_str()),
            CaptureError::UnsupportedFormat(m) => prefixed("Unsupported pixel format: ", m.as_str()),
            CaptureError::InvalidRegion(m) => prefixed("Invalid region: ", m.as_str()),
            CaptureError::NotAvailable(m) => prefixed("Backend not available: ", m.as_str()),
            CaptureError::Io(e) => prefixed_io_error("IO error: ", e),
            CaptureError::Other(m) => m.clone(),
        }
    }
}

impl From<std::io::Error> for CaptureError {
    fn from(err: std::io::Error) -> (e: Self) {
        CaptureError::Io(err)
    }
}

impl vstd::std_specs::convert::FromSpecImpl<std::io::Error> for CaptureError {
    open spec fn obeys_from_spec() -> bool {
        true
    }

    open spec fn from_spec(v: std::io::Error) -> CaptureError {
        CaptureError::Io(v)
    }
}

/// Capabilities of a capture backend.
#[derive(Debug, Clone)]
pub struct Capabilities {
    /// Maximum supported frame rate (FPS).
    pub max_fps: u32,
    /// Supported pixel formats.
    pub supported_formats: Vec<PixelFormat>,
    /// Whether cursor capture is supported.
    pub supports_cursor: bool,
    /// Whether zero-copy capture is supported (DMA-BUF).
    pub supports_zero_copy: bool,
    /// Whether the backend can capture a specific region.
    pub supports_region_capture: bool,
    /// Name of the backend.
    pub name: String,
}

impl Capabilities {
    /// Check if a pixel format is supported.
    pub fn supports_format(&self, format: &PixelFormat) -> (b: bool)
        ensures
            b == self.supported_formats@.contains(*format),
    {
        let n = self.supported_formats.len();
        let mut i: usize = 0;
        while i < n
            invariant
                n == self.supported_formats@.len(),
                0 <= i <= n,
                forall|k: int| 0 <= k < i ==> self.supported_formats@[k] != *format,
            decreases n - i,
        {
            if self.supported_formats[i] == *format {
                return true;
            }
            i = i + 1;
        }
        false
    }
}

/// What the X11 shared-memory backend reports of itself; cursor capture
/// depends on the XFixes extension being present.
pub fn x11_capabilities(supports_cursor: bool) -> (c: Capabilities)
    ensures
        c.name@ == "X11/XShm"@,
        c.max_fps == 240,
        c.supported_formats@ == seq![PixelFormat::BGRA8888, PixelFormat::RGB888],
        c.supports_cursor == supports_cursor,
        c.supports_zero_copy,
        c.supports_region_capture,
{
    Capabilities {
        name: String::from_str("X11/XShm"),
        max_fps: 240,
        supported_formats: vec![PixelFormat::BGRA8888, PixelFormat::RGB888],
        supports_cursor,
        supports_zero_copy: true,
        supports_region_capture: true,
    }
}

/// What the Portal/PipeWire backend reports of itself.
pub fn portal_capabilities() -> (c: Capabilities)
    ensures
        c.name@ == "Portal/PipeWire/DmaBuf"@,
        c.max_fps == 60,
        c.supported_formats@ == seq![PixelFormat::BGRA8888, PixelFormat::RGBA8888],
        c.supports_cursor,
        c.supports_zero_copy,
        c.supports_region_capture,
{
    Capabilities {
        name: String::from_str("Portal/PipeWire/DmaBuf"),
        max_fps: 60,
        supported_formats: vec![PixelFormat::BGRA8888, PixelFormat::RGBA8888],
        supports_cursor: true,
        supports_zero_copy: true,
        supports_region_capture: true,
    }
}

/// The pixel format an X server with the given root depth delivers: 24- and
/// 32-bit depths give BGRA; any other depth is refused, naming the depth.
pub fn pixel_format_for_depth(depth: u8) -> (r: Result<PixelFormat, CaptureError>)
    ensures
        depth == 24 || depth == 32 ==> r == Ok::<PixelFormat, CaptureError>(PixelFormat::BGRA8888),
        !(depth == 24 || depth == 32) ==> (r matches Err(CaptureError::UnsupportedFormat(m)) && m@
            == "Profondeur de couleur non supportée: "@ + decimal(depth as nat)),
{
    if depth == 24 || depth == 32 {
        Ok(PixelFormat::BGRA8888)
    } else {
        let mut m = String::from_str("Profondeur de couleur non supportée: ");
        push_decimal(&mut m, depth as u64);
        Err(CaptureError::UnsupportedFormat(m))
    }
}

} // verus!
