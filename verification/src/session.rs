//! Decisions of the capture application between user interface frames: the
//! region it starts with, when the window is resized and sent to the
//! background, how a captured frame is turned into displayable pixels, and
//! what the capture loop does with each frame.
use vstd::prelude::*;

use crate::config::LastRegion;
use crate::geometry::{PixelFormat, Rectangle};
use crate::pipewire::{extract_inside_frame, extracted, frame_row_bytes, region_row_bytes, PipeWireFrame};
use crate::text::{decimal, push_decimal};

verus! {

/// What the application starts with.
#[derive(Debug, Clone, Copy)]
pub struct StartupPlan {
    pub x: i32,
    pub y: i32,
    pub width: u32,
    pub height: u32,
    /// Start streaming at once, without the selection screen.
    pub streaming_only: bool,
    /// Resize the window to the region before streaming.
    pub pending_resize: Option<(u32, u32)>,
    /// Send the window to the background once it is resized.
    pub pending_send_to_background: bool,
}

/// The region and mode the application starts in: the remembered region if
/// there is one, else 800x600 at (560, 240); streaming starts at once when
/// the settings ask to reuse a remembered region.
pub fn startup_plan(
    remembered: Option<LastRegion>,
    remember_last_region: bool,
    auto_use_specific_region: bool,
    auto_send_to_background: bool,
) -> (p: StartupPlan)
    ensures
        ({
            let auto_start = auto_use_specific_region && remember_last_region && remembered is Some;
            &&& match remembered {
                Some(r) => p.x == r.x && p.y == r.y && p.width == r.width && p.height == r.height,
                None => p.x == 560 && p.y == 240 && p.width == 800 && p.height == 600,
            }
            &&& p.streaming_only == auto_start
            &&& p.pending_resize == if auto_start {
                Some((p.width, p.height))
            } else {
                None
            }
            &&& p.pending_send_to_background == (auto_start && auto_send_to_background)
        }),
{
    let (x, y, width, height) = match remembered {
        Some(r) => (r.x, r.y, r.width, r.height),
        None => (560, 240, 800, 600),
    };
    let auto_start = auto_use_specific_region && remember_last_region && remembered.is_some();
    StartupPlan {
        x,
        y,
        width,
        height,
        streaming_only: auto_start,
        pending_resize: if auto_start {
            Some((width, height))
        } else {
            None
        },
        pending_send_to_background: auto_start && auto_send_to_background,
    }
}

/// Frames to wait after leaving full screen before resizing the window.
pub open spec fn resize_wait(wayland: bool) -> u32 {
    if wayland {
        15
    } else {
        5
    }
}

/// Frames to wait after the resize before sending the window back.
pub open spec fn background_wait(wayland: bool) -> u32 {
    if wayland {
        20
    } else {
        10
    }
}

/// What one user-interface frame asks the window to do.
#[derive(Debug, Clone, Copy)]
pub struct WindowActions {
    /// Resize the window's inner area to this size.
    pub resize_to: Option<(u32, u32)>,
    /// Start capturing.
    pub start_capture: bool,
    /// Lower (X11) or minimize (Wayland) the window.
    pub send_to_background: bool,
    /// Ask for another frame soon.
    pub repaint: bool,
}

/// Deferred window work: a resize that waits a few frames for the window
/// manager to leave full screen, then sending the window to the background
/// a few frames after that.
pub struct WindowSchedule {
    pending_resize: Option<(u32, u32)>,
    resize_frame_count: u32,
    pending_send_to_background: bool,
    background_delay_frames: u32,
}

impl WindowSchedule {
    #[verifier::type_invariant]
    spec fn counters_bounded(self) -> bool {
        &&& self.resize_frame_count <= 15
        &&& self.pending_resize is Some ==> self.resize_frame_count < 15
        &&& self.background_delay_frames <= 19
    }

    /// The size the window waits to be resized to.
    pub closed spec fn resize_target(self) -> Option<(u32, u32)> {
        self.pending_resize
    }

    /// Frames waited so far for the resize.
    pub closed spec fn frames_waited(self) -> u32 {
        self.resize_frame_count
    }

    /// Sending the window to the background is due after the resize.
    pub closed spec fn background_due(self) -> bool {
        self.pending_send_to_background
    }

    /// Frames counted so far towards sending the window back.
    pub closed spec fn background_frames(self) -> u32 {
        self.background_delay_frames
    }

    /// A schedule with a resize pending if `resize_to` is given, and the
    /// background step due after it if asked for.
    pub fn new(resize_to: Option<(u32, u32)>, send_to_background: bool) -> (s: Self)
        ensures
            s.resize_target() == resize_to,
            s.frames_waited() == 0,
            s.background_due() == send_to_background,
            s.background_frames() == 0,
    {
        WindowSchedule {
            pending_resize: resize_to,
            resize_frame_count: 0,
            pending_send_to_background: send_to_background,
            background_delay_frames: 0,
        }
    }

    /// Waits anew to resize the window to `width` x `height`.
    pub fn schedule_resize(&mut self, width: u32, height: u32)
        ensures
            final(self).resize_target() == Some((width, height)),
            final(self).frames_waited() == 0,
            final(self).background_due() == old(self).background_due(),
            final(self).background_frames() == old(self).background_frames(),
    {
        proof {
            use_type_invariant(&*self);
        }
        self.resize_frame_count = 0;
        self.pending_resize = Some((width, height));
    }

    /// Sends the window to the background once the resize is done.
    pub fn schedule_background(&mut self)
        ensures
            final(self).resize_target() == old(self).resize_target(),
            final(self).frames_waited() == old(self).frames_waited(),
            final(self).background_due(),
            final(self).background_frames() == old(self).background_frames(),
    {
        proof {
            use_type_invariant(&*self);
        }
        self.pending_send_to_background = true;
    }

    /// A resize is still waiting.
    pub fn resize_pending(&self) -> (b: bool)
        ensures
            b == self.resize_target() is Some,
    {
        self.pending_resize.is_some()
    }

    /// One frame of the schedule: `s` before it, `t` after it, `a` what the
    /// frame asks of the window. A pending resize counts the frame and fires
    /// once it has waited `resize_wait` frames, starting the capture if none
    /// runs and arming the background step; once no resize is pending, a due
    /// background step counts the frame and fires once it has waited
    /// `background_wait` frames.
    pub open spec fn steps_to(
        s: WindowSchedule,
        t: WindowSchedule,
        a: WindowActions,
        wayland: bool,
        capturing: bool,
    ) -> bool {
        let fired = s.resize_target() is Some && s.frames_waited() + 1 >= resize_wait(wayland);
        let mid_target = if fired {
            None
        } else {
            s.resize_target()
        };
        let mid_count: int = if s.resize_target() is Some {
            s.frames_waited() + 1
        } else {
            s.frames_waited() as int
        };
        let mid_bg_frames: int = if fired && s.background_due() {
            1
        } else {
            s.background_frames() as int
        };
        let bg_active = s.background_due() && mid_target is None;
        let bg_fired = bg_active && mid_bg_frames + 1 >= background_wait(wayland);
        &&& a.resize_to == if fired {
            s.resize_target()
        } else {
            None
        }
        &&& a.start_capture == (fired && !capturing)
        &&& a.send_to_background == bg_fired
        &&& a.repaint == (s.resize_target() is Some || bg_active)
        &&& t.resize_target() == mid_target
        &&& t.frames_waited() == mid_count
        &&& t.background_due() == (s.background_due() && !bg_fired)
        &&& t.background_frames() == if bg_fired {
            0
        } else if bg_active {
            mid_bg_frames + 1
        } else {
            mid_bg_frames
        }
    }

    /// Advances the schedule by one user-interface frame, as `steps_to` says.
    pub fn step(&mut self, wayland: bool, capturing: bool) -> (a: WindowActions)
        ensures
            Self::steps_to(*old(self), *final(self), a, wayland, capturing),
    {
        proof {
            use_type_invariant(&*self);
        }
        let mut actions = WindowActions {
            resize_to: None,
            start_capture: false,
            send_to_background: false,
            repaint: false,
        };
        if let Some((target_width, target_height)) = self.pending_resize {
            let count = self.resize_frame_count + 1;
            let frames_to_wait: u32 = if wayland {
                15
            } else {
                5
            };
            if count >= frames_to_wait {
                actions.resize_to = Some((target_width, target_height));
                if !capturing {
                    actions.start_capture = true;
                }
                let delay = if self.pending_send_to_background {
                    1
                } else {
                    self.background_delay_frames
                };
                self.pending_resize = None;
                self.resize_frame_count = count;
                self.background_delay_frames = delay;
            } else {
                self.resize_frame_count = count;
            }
            actions.repaint = true;
        }
        if self.pending_send_to_background && self.pending_resize.is_none() {
            let delay = self.background_delay_frames + 1;
            let frames_to_wait: u32 = if wayland {
                20
            } else {
                10
            };
            if delay >= frames_to_wait {
                self.pending_send_to_background = false;
                self.background_delay_frames = 0;
                actions.send_to_background = true;
            } else {
                self.background_delay_frames = delay;
            }
            actions.repaint = true;
        }
        actions
    }
}

/// Frames `0..n` of a run of the schedule: `runs[k]` steps to `runs[k + 1]`
/// asking `acts[k]` of the window, the capture running or not as
/// `capturing[k]` says.
pub open spec fn schedule_run(
    runs: Seq<WindowSchedule>,
    acts: Seq<WindowActions>,
    capturing: Seq<bool>,
    wayland: bool,
    n: int,
) -> bool {
    &&& 0 <= n <= acts.len()
    &&& runs.len() == acts.len() + 1
    &&& capturing.len() == acts.len()
    &&& forall|k: int|
        0 <= k < n ==> #[trigger] WindowSchedule::steps_to(
            runs[k],
            runs[k + 1],
            acts[k],
            wayland,
            capturing[k],
        )
}

proof fn lemma_resize_waits(
    runs: Seq<WindowSchedule>,
    acts: Seq<WindowActions>,
    capturing: Seq<bool>,
    wayland: bool,
    k: int,
)
    requires
        schedule_run(runs, acts, capturing, wayland, acts.len() as int),
        runs[0].resize_target() is Some,
        runs[0].frames_waited() == 0,
        acts.len() == resize_wait(wayland),
        0 <= k < acts.len(),
    ensures
        runs[k].resize_target() == runs[0].resize_target(),
        runs[k].frames_waited() == k,
        forall|j: int| 0 <= j < k ==> (#[trigger] acts[j]).resize_to is None,
    decreases k,
{
    if k > 0 {
        lemma_resize_waits(runs, acts, capturing, wayland, k - 1);
        assert(WindowSchedule::steps_to(runs[k - 1], runs[k], acts[k - 1], wayland, capturing[k - 1]));
    }
}

/// A resize waits its frames: scheduled on a window, it fires at frame
/// `resize_wait(wayland)` of the run that follows (5 frames on X11, 15 on
/// Wayland, for the window manager to leave full screen) and at no frame
/// before, and that frame starts the capture unless one is running.
pub proof fn resize_fires_after_wait(
    runs: Seq<WindowSchedule>,
    acts: Seq<WindowActions>,
    capturing: Seq<bool>,
    wayland: bool,
)
    requires
        schedule_run(runs, acts, capturing, wayland, acts.len() as int),
        runs[0].resize_target() is Some,
        runs[0].frames_waited() == 0,
        acts.len() == resize_wait(wayland),
    ensures
        forall|j: int| 0 <= j < acts.len() - 1 ==> (#[trigger] acts[j]).resize_to is None,
        acts[acts.len() - 1].resize_to == runs[0].resize_target(),
        acts[acts.len() - 1].start_capture == !capturing[acts.len() - 1],
        runs[acts.len() as int].resize_target() is None,
{
    let last = acts.len() - 1;
    lemma_resize_waits(runs, acts, capturing, wayland, last);
    assert(WindowSchedule::steps_to(runs[last], runs[last + 1], acts[last], wayland, capturing[last]));
}

/// The window is sent to the background exactly on the frame that uses up
/// a due background step, on Wayland as on X11.
pub proof fn background_sent_when_used_up(
    s: WindowSchedule,
    t: WindowSchedule,
    a: WindowActions,
    wayland: bool,
    capturing: bool,
)
    requires
        WindowSchedule::steps_to(s, t, a, wayland, capturing),
    ensures
        a.send_to_background <==> (s.background_due() && !t.background_due()),
{
}

proof fn lemma_background_counts(
    runs: Seq<WindowSchedule>,
    acts: Seq<WindowActions>,
    capturing: Seq<bool>,
    wayland: bool,
    k: int,
)
    requires
        schedule_run(runs, acts, capturing, wayland, acts.len() as int),
        runs[0].resize_target() is None,
        runs[0].background_due(),
        runs[0].background_frames() < background_wait(wayland),
        acts.len() == background_wait(wayland) - runs[0].background_frames(),
        0 <= k < acts.len(),
    ensures
        runs[k].resize_target() is None,
        runs[k].background_due(),
        runs[k].background_frames() == runs[0].background_frames() + k,
        forall|j: int| 0 <= j < k ==> !(#[trigger] acts[j]).send_to_background,
    decreases k,
{
    if k > 0 {
        lemma_background_counts(runs, acts, capturing, wayland, k - 1);
        let j = k - 1;
        assert(WindowSchedule::steps_to(runs[j], runs[j + 1], acts[j], wayland, capturing[j]));
    }
}

/// With no resize pending and the background step due after `b` counted
/// frames, the window is sent to the background at frame
/// `background_wait(wayland) - b` of the run that follows (the step waits
/// 10 frames on X11 and 20 on Wayland in all) and at no frame before.
pub proof fn background_sent_after_wait(
    runs: Seq<WindowSchedule>,
    acts: Seq<WindowActions>,
    capturing: Seq<bool>,
    wayland: bool,
)
    requires
        schedule_run(runs, acts, capturing, wayland, acts.len() as int),
        runs[0].resize_target() is None,
        runs[0].background_due(),
        runs[0].background_frames() < background_wait(wayland),
        acts.len() == background_wait(wayland) - runs[0].background_frames(),
    ensures
        forall|j: int| 0 <= j < acts.len() - 1 ==> !(#[trigger] acts[j]).send_to_background,
        acts[acts.len() - 1].send_to_background,
        !runs[acts.len() as int].background_due(),
{
    let last = acts.len() - 1;
    lemma_background_counts(runs, acts, capturing, wayland, last);
    assert(WindowSchedule::steps_to(runs[last], runs[last + 1], acts[last], wayland, capturing[last]));
}

/// Sanitizing keeps whatever already lies within the limits and moves the
/// rest to the nearest limit: an origin at zero or above stays, a negative
/// one becomes zero; a width in 1..=3840 and a height in 1..=2160 stay, a
/// zero size becomes 1, and a larger one becomes the limit.
pub proof fn sanitize_keeps_what_fits(r: Rectangle)
    ensures
        r.x >= 0 ==> sanitized(r).x == r.x,
        r.x < 0 ==> sanitized(r).x == 0,
        r.y >= 0 ==> sanitized(r).y == r.y,
        r.y < 0 ==> sanitized(r).y == 0,
        1 <= r.width <= 3840 ==> sanitized(r).width == r.width,
        r.width == 0 ==> sanitized(r).width == 1,
        r.width > 3840 ==> sanitized(r).width == 3840,
        1 <= r.height <= 2160 ==> sanitized(r).height == r.height,
        r.height == 0 ==> sanitized(r).height == 1,
        r.height > 2160 ==> sanitized(r).height == 2160,
        r.x >= 0 && r.y >= 0 && 1 <= r.width <= 3840 && 1 <= r.height <= 2160 ==> sanitized(r)
            == r,
{
}

/// `v` held to `lo..=hi`.
pub open spec fn clamped(v: int, lo: int, hi: int) -> int {
    if v < lo {
        lo
    } else if v > hi {
        hi
    } else {
        v
    }
}

/// The region a capture is started with: its origin held at zero or above,
/// its width held to 1..=3840 and its height to 1..=2160.
pub open spec fn sanitized(region: Rectangle) -> Rectangle {
    Rectangle {
        x: if region.x >= 0 {
            region.x
        } else {
            0
        },
        y: if region.y >= 0 {
            region.y
        } else {
            0
        },
        width: clamped(region.width as int, 1, 3840) as u32,
        height: clamped(region.height as int, 1, 2160) as u32,
    }
}

/// A sanitized region is left as it is by sanitizing it again, and it lies
/// within the limits: origin at zero or above, at most 3840x2160, never empty.
pub proof fn sanitize_settles(region: Rectangle)
    ensures
        sanitized(sanitized(region)) == sanitized(region),
        sanitized(region).x >= 0,
        sanitized(region).y >= 0,
        1 <= sanitized(region).width <= 3840,
        1 <= sanitized(region).height <= 2160,
{
}

/// The region a capture is started with: its origin held at zero or above,
/// its width held to 1..=3840 and its height to 1..=2160.
pub fn sanitize_capture_region(region: Rectangle) -> (r: Rectangle)
    ensures
        r == sanitized(region),
{
    Rectangle {
        x: if region.x >= 0 {
            region.x
        } else {
            0
        },
        y: if region.y >= 0 {
            region.y
        } else {
            0
        },
        width: if region.width < 1 {
            1
        } else if region.width > 3840 {
            3840
        } else {
            region.width
        },
        height: if region.height < 1 {
            1
        } else if region.height > 2160 {
            2160
        } else {
            region.height
        },
    }
}

/// What the capture loop does with a captured frame.
#[derive(Debug, Clone, Copy, PartialEq, Eq, Structural)]
pub enum FrameVerdict {
    /// The frame repeats the last one handed on: skip it.
    Skip,
    /// Hand the frame on; every tenth frame also reports statistics.
    Emit { report_stats: bool },
}

/// Counters of the capture loop.
#[derive(Debug, Clone, Copy, PartialEq, Eq, Structural)]
pub struct CaptureLoop {
    pub frame_count: u32,
    pub frames_skipped: u32,
    pub last_sequence: u64,
    pub total_bytes_sent: u64,
}

impl CaptureLoop {
    /// Nothing captured yet.
    pub fn new() -> (c: Self)
        ensures
            c == (CaptureLoop { frame_count: 0, frames_skipped: 0, last_sequence: 0, total_bytes_sent: 0 }),
    {
        CaptureLoop { frame_count: 0, frames_skipped: 0, last_sequence: 0, total_bytes_sent: 0 }
    }

    /// The counters can count a frame with sequence number `sequence` of
    /// `frame_bytes` bytes without overflowing: the frame count always
    /// grows, the skip count only for a repeated frame, and the byte count
    /// only for a frame handed on.
    pub open spec fn counts_fit(self, sequence: u64, frame_bytes: u64) -> bool {
        &&& self.frame_count < u32::MAX
        &&& sequence == self.last_sequence ==> self.frames_skipped < u32::MAX
        &&& sequence != self.last_sequence ==> self.total_bytes_sent + frame_bytes <= u64::MAX
    }

    /// Whether `on_frame` can count this frame.
    pub fn can_count(&self, sequence: u64, frame_bytes: u64) -> (b: bool)
        ensures
            b == self.counts_fit(sequence, frame_bytes),
    {
        self.frame_count < u32::MAX && if sequence == self.last_sequence {
            self.frames_skipped < u32::MAX
        } else {
            frame_bytes <= u64::MAX - self.total_bytes_sent
        }
    }

    /// Counts a captured frame with sequence number `sequence` holding
    /// `frame_bytes` bytes: a frame with the sequence number of the last one
    /// handed on is skipped; any other is handed on and its bytes counted,
    /// with statistics reported on every tenth captured frame.
    pub fn on_frame(&mut self, sequence: u64, frame_bytes: u64) -> (v: FrameVerdict)
        requires
            old(self).counts_fit(sequence, frame_bytes),
        ensures
            final(self).frame_count == old(self).frame_count + 1,
            sequence == old(self).last_sequence ==> {
                &&& v == FrameVerdict::Skip
                &&& final(self).frames_skipped == old(self).frames_skipped + 1
                &&& final(self).last_sequence == old(self).last_sequence
                &&& final(self).total_bytes_sent == old(self).total_bytes_sent
            },
            sequence != old(self).last_sequence ==> {
                &&& v == FrameVerdict::Emit {
                    report_stats: final(self).frame_count % 10 == 0,
                }
                &&& final(self).frames_skipped == old(self).frames_skipped
                &&& final(self).last_sequence == sequence
                &&& final(self).total_bytes_sent == old(self).total_bytes_sent + frame_bytes
            },
    {
        self.frame_count = self.frame_count + 1;
        if sequence == self.last_sequence {
            self.frames_skipped = self.frames_skipped + 1;
            return FrameVerdict::Skip;
        }
        self.last_sequence = sequence;
        self.total_bytes_sent = self.total_bytes_sent + frame_bytes;
        FrameVerdict::Emit { report_stats: self.frame_count % 10 == 0 }
    }
}

/// The RGBA bytes shown for pixel `i` of frame data in `format`: RGBA data
/// keeps its colour bytes, any other data is read as BGRA; alpha is opaque.
pub open spec fn shown_pixel(data: Seq<u8>, i: int, format: PixelFormat) -> Seq<u8> {
    if format == PixelFormat::RGBA8888 {
        seq![data[4 * i], data[4 * i + 1], data[4 * i + 2], 255u8]
    } else {
        seq![data[4 * i + 2], data[4 * i + 1], data[4 * i], 255u8]
    }
}

/// Converts frame data to RGBA bytes for display, four bytes per pixel for
/// `width * height` pixels. Data shorter than four bytes per pixel is
/// refused, saying how many bytes there are and how many were expected.
pub fn display_rgba(data: &[u8], width: u32, height: u32, format: PixelFormat) -> (r: Result<
    Vec<u8>,
    String,
>)
    requires
        width * height <= u32::MAX,
        width * height * 4 <= usize::MAX,
    ensures
        ({
            let n = width * height;
            if data@.len() < 4 * n {
                r matches Err(m) && m@ == "Not enough data: got "@ + decimal(data@.len()) + " bytes, expected "@
                    + decimal((4 * n) as nat)
            } else {
                r matches Ok(out) && out@.len() == 4 * n && forall|i: int|
                    0 <= i < n ==> #[trigger] out@.subrange(4 * i, 4 * i + 4) == shown_pixel(
                        data@,
                        i,
                        format,
                    )
            }
        }),
{
    let pixel_count = (width * height) as usize;
    let expected_bytes = pixel_count * 4;
    if data.len() < expected_bytes {
        let mut m = String::from_str("Not enough data: got ");
        push_decimal(&mut m, data.len() as u64);
        m.append(" bytes, expected ");
        push_decimal(&mut m, expected_bytes as u64);
        return Err(m);
    }
    let len = data.len();
    let is_rgba = format == PixelFormat::RGBA8888;
    let mut out: Vec<u8> = Vec::with_capacity(expected_bytes);
    let mut i: usize = 0;
    while i < pixel_count
        invariant
            0 <= i <= pixel_count,
            pixel_count == width * height,
            4 * pixel_count <= len,
            len == data@.len(),
            is_rgba == (format == PixelFormat::RGBA8888),
            out@.len() == 4 * i,
            forall|k: int|
                0 <= k < i ==> #[trigger] out@.subrange(4 * k, 4 * k + 4) == shown_pixel(
                    data@,
                    k,
                    format,
                ),
        decreases pixel_count - i,
    {
        let base = 4 * i;
        let ghost before = out@;
        if is_rgba {
            out.push(data[base]);
            out.push(data[base + 1]);
            out.push(data[base + 2]);
        } else {
            out.push(data[base + 2]);
            out.push(data[base + 1]);
            out.push(data[base]);
        }
        out.push(255);
        assert(out@.subrange(4 * i, 4 * i + 4) =~= shown_pixel(data@, i as int, format));
        assert forall|k: int| 0 <= k < i + 1 implies #[trigger] out@.subrange(4 * k, 4 * k + 4)
            == shown_pixel(data@, k, format) by {
            if k < i {
                assert(out@.subrange(4 * k, 4 * k + 4) =~= before.subrange(4 * k, 4 * k + 4));
            }
        }
        i = i + 1;
    }
    Ok(out)
}

/// The window shows the selected region pixel for pixel: when a region lies
/// inside a full frame of four-byte pixels, pixel `(px, py)` of what is shown
/// of the cut-out region is pixel `(region.x + px, region.y + py)` of the
/// frame, shown the same way.
pub proof fn region_shown_pixel_for_pixel(frame: PipeWireFrame, region: Rectangle, px: int, py: int)
    requires
        frame.format.pixel_bytes() == 4,
        region.x >= 0,
        region.y >= 0,
        region.x + region.width <= frame.width,
        region.y + region.height <= frame.height,
        frame.data@.len() == frame.height * frame_row_bytes(frame),
        0 <= px < region.width,
        0 <= py < region.height,
    ensures
        shown_pixel(extracted(frame, region), py * region.width + px, frame.format) == shown_pixel(
            frame.data@,
            (region.y + py) * frame.width + region.x + px,
            frame.format,
        ),
{
    extract_inside_frame(frame, region);
    let e = extracted(frame, region);
    let w = region.width as int;
    let h = region.height as int;
    let fw = frame.width as int;
    let ds = region_row_bytes(frame, region);
    let st = frame_row_bytes(frame);
    let i = py * w + px;
    let src = (region.y + py) * fw + region.x + px;
    assert(ds == 4 * w && st == 4 * fw);
    assert(0 <= 4 * px < ds);
    assert(e.len() == h * ds);
    assert(4 * i + 3 < e.len()) by (nonlinear_arith)
        requires
            i == py * w + px,
            0 <= px < w,
            0 <= py < h,
            ds == 4 * w,
            e.len() == h * ds,
    ;
    assert forall|k: int| 0 <= k < 4 implies #[trigger] e[4 * i + k] == frame.data@[4 * src + k] by {
        let j = 4 * i + k;
        assert(j == py * ds + (4 * px + k)) by (nonlinear_arith)
            requires
                j == 4 * i + k,
                i == py * w + px,
                ds == 4 * w,
        ;
        vstd::arithmetic::div_mod::lemma_fundamental_div_mod_converse_div(j, ds, py, 4 * px + k);
        vstd::arithmetic::div_mod::lemma_fundamental_div_mod_converse_mod(j, ds, py, 4 * px + k);
        assert(0 <= j < e.len()) by (nonlinear_arith)
            requires
                j == 4 * i + k,
                0 <= k < 4,
                4 * i + 3 < e.len(),
                i >= 0,
        ;
        assert((region.y + py) * st + region.x * 4 + (4 * px + k) == 4 * src + k) by (nonlinear_arith)
            requires
                st == 4 * fw,
                src == (region.y + py) * fw + region.x + px,
        ;
    }
    assert(e[4 * i + 0] == frame.data@[4 * src + 0]);
    assert(e[4 * i] == frame.data@[4 * src]);
    assert(e[4 * i + 1] == frame.data@[4 * src + 1]);
    assert(e[4 * i + 2] == frame.data@[4 * src + 2]);
}

/// What is shown of a pixel never depends on its fourth byte (alpha or
/// padding, as in BGRx frames): the shown pixel is always opaque, keeps the
/// colour bytes of RGBA data in place, and shows any other data as BGRA,
/// swapping blue and red.
pub proof fn shown_pixel_ignores_fourth_byte(data: Seq<u8>, i: int, v: u8, format: PixelFormat)
    requires
        0 <= i,
        4 * i + 3 < data.len(),
    ensures
        shown_pixel(data.update(4 * i + 3, v), i, format) == shown_pixel(data, i, format),
        shown_pixel(data, i, format).len() == 4,
        shown_pixel(data, i, format)[3] == 255,
        format == PixelFormat::RGBA8888 ==> shown_pixel(data, i, format).take(3) == data.subrange(
            4 * i,
            4 * i + 3,
        ),
        format != PixelFormat::RGBA8888 ==> {
            &&& shown_pixel(data, i, format)[0] == data[4 * i + 2]
            &&& shown_pixel(data, i, format)[1] == data[4 * i + 1]
            &&& shown_pixel(data, i, format)[2] == data[4 * i]
        },
{
    let d = data.update(4 * i + 3, v);
    assert(d[4 * i] == data[4 * i]);
    assert(d[4 * i + 1] == data[4 * i + 1]);
    assert(d[4 * i + 2] == data[4 * i + 2]);
    assert(shown_pixel(d, i, format) =~= shown_pixel(data, i, format));
    if format == PixelFormat::RGBA8888 {
        assert(shown_pixel(data, i, format).take(3) =~= data.subrange(4 * i, 4 * i + 3));
    }
}

} // verus!
