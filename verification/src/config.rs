//! Configuration types, their defaults, and the configuration rules that
//! involve no floating-point value.
use vstd::prelude::*;

use crate::error::ConfigError;
use crate::geometry::Rectangle;

verus! {

/// Capture backend selection.
#[derive(Debug, Clone, Copy, PartialEq, Eq, Structural)]
pub enum CaptureBackend {
    /// Automatically detect the best backend.
    Auto,
    /// Force X11 backend (XShm).
    X11,
    /// Force Portal backend (Wayland).
    Portal,
    /// Force PipeWire backend (direct connection).
    PipeWire,
}

/// UI theme selection.
#[derive(Debug, Clone, Copy, PartialEq, Eq, Structural)]
pub enum UiTheme {
    /// Follow system theme.
    Auto,
    /// Light theme.
    Light,
    /// Dark theme.
    Dark,
}

/// Capture backend configuration.
#[derive(Debug, Clone, Copy)]
pub struct CaptureConfig {
    /// Preferred capture backend (auto, x11, portal, pipewire).
    pub backend: CaptureBackend,
    /// Target frame rate in FPS.
    pub frame_rate: u32,
    /// Show cursor in captured frames.
    pub show_cursor: bool,
    /// Remember the last selected region.
    pub remember_region: bool,
    /// Last captured region (if remember_region is true).
    pub last_region: Option<Rectangle>,
    /// Automatically use the last region without asking.
    pub auto_use_last_region: bool,
}

impl Default for CaptureConfig {
    fn default() -> (c: Self)
        ensures
            c.backend == CaptureBackend::Auto,
            c.frame_rate == 30,
            c.show_cursor,
            !c.remember_region,
            c.last_region is None,
            !c.auto_use_last_region,
    {
        Self {
            backend: CaptureBackend::Auto,
            frame_rate: 30,
            show_cursor: true,
            remember_region: false,
            last_region: None,
            auto_use_last_region: false,
        }
    }
}

/// Performance monitoring and optimization configuration.
#[derive(Debug, Clone, Copy)]
pub struct PerformanceConfig {
    /// Enable performance profiling.
    pub enable_profiling: bool,
    /// Show performance overlay in display window.
    pub show_performance_overlay: bool,
    /// Target maximum CPU usage percentage.
    pub max_cpu_usage: u32,
    /// Enable GPU acceleration (DMA-BUF, zero-copy).
    pub enable_gpu_acceleration: bool,
    /// Skip frames if CPU is overloaded.
    pub adaptive_quality: bool,
}

impl Default for PerformanceConfig {
    fn default() -> (c: Self)
        ensures
            !c.enable_profiling,
            !c.show_performance_overlay,
            c.max_cpu_usage == 50,
            c.enable_gpu_acceleration,
            c.adaptive_quality,
    {
        Self {
            enable_profiling: false,
            show_performance_overlay: false,
            max_cpu_usage: 50,
            enable_gpu_acceleration: true,
            adaptive_quality: true,
        }
    }
}

/// The last region the user selected, as stored in the settings file.
#[derive(Debug, Clone, Copy, PartialEq, Eq, Structural)]
pub struct LastRegion {
    pub x: i32,
    pub y: i32,
    pub width: u32,
    pub height: u32,
}

impl Default for LastRegion {
    fn default() -> (r: Self)
        ensures
            r == (LastRegion { x: 0, y: 0, width: 800, height: 600 }),
    {
        Self { x: 0, y: 0, width: 800, height: 600 }
    }
}

/// The frame-rate rule of a configuration: between 1 and 240 frames per
/// second; any other rate is refused, naming the key and the rule.
pub fn validate_frame_rate(frame_rate: u32) -> (r: Result<(), ConfigError>)
    ensures
        1 <= frame_rate <= 240 ==> r is Ok,
        !(1 <= frame_rate <= 240) ==> (r matches Err(ConfigError::InvalidValue { key, message })
            && key@ == "capture.frame_rate"@ && message@ == "must be between 1 and 240"@),
{
    if frame_rate == 0 || frame_rate > 240 {
        return Err(
            ConfigError::InvalidValue {
                key: String::from_str("capture.frame_rate"),
                message: String::from_str("must be between 1 and 240"),
            },
        );
    }
    Ok(())
}

/// The error a configuration value outside its range is refused with.
pub fn invalid_value(key: &str, message: &str) -> (e: ConfigError)
    ensures
        e matches ConfigError::InvalidValue { key: k, message: m } && k@ == key@ && m@ == message@,
{
    ConfigError::InvalidValue { key: String::from_str(key), message: String::from_str(message) }
}

/// The region remembered from the last session, when remembering is on.
pub fn remembered_region(remember_last_region: bool, last_region: &LastRegion) -> (r: Option<
    LastRegion,
>)
    ensures
        remember_last_region ==> r == Some(*last_region),
        !remember_last_region ==> r is None,
{
    if remember_last_region {
        Some(*last_region)
    } else {
        None
    }
}

} // verus!
