use region_to_share::config::{
    remembered_region, CaptureBackend, CaptureConfig, LastRegion, PerformanceConfig,
};
use region_to_share::geometry::{PixelFormat, Rectangle};
use region_to_share::procfs::count_processor_lines;
use region_to_share::pipewire::{extract_region, PipeWireFrame};
use std::sync::Arc;
use std::time::Instant;
use region_to_share::session::{
    display_rgba, sanitize_capture_region, startup_plan, CaptureLoop, FrameVerdict, WindowSchedule,
};

#[test]
fn defaults() {
    let c = CaptureConfig::default();
    assert_eq!(c.backend, CaptureBackend::Auto);
    assert_eq!(c.frame_rate, 30);
    assert!(c.show_cursor);
    assert!(c.last_region.is_none());
    let p = PerformanceConfig::default();
    assert_eq!(p.max_cpu_usage, 50);
    assert!(p.enable_gpu_acceleration && p.adaptive_quality && !p.enable_profiling);
    assert_eq!(LastRegion::default(), LastRegion { x: 0, y: 0, width: 800, height: 600 });
}

#[test]
fn remembered_region_needs_the_setting() {
    let r = LastRegion { x: 1, y: 2, width: 3, height: 4 };
    assert_eq!(remembered_region(true, &r), Some(r));
    assert_eq!(remembered_region(false, &r), None);
}

#[test]
fn startup_without_memory() {
    let p = startup_plan(None, false, true, true);
    assert_eq!((p.x, p.y, p.width, p.height), (560, 240, 800, 600));
    assert!(!p.streaming_only);
    assert!(p.pending_resize.is_none());
    assert!(!p.pending_send_to_background);
}

#[test]
fn startup_reuses_remembered_region() {
    let r = LastRegion { x: 10, y: 20, width: 640, height: 480 };
    let p = startup_plan(Some(r), true, true, true);
    assert_eq!((p.x, p.y, p.width, p.height), (10, 20, 640, 480));
    assert!(p.streaming_only);
    assert_eq!(p.pending_resize, Some((640, 480)));
    assert!(p.pending_send_to_background);
    let q = startup_plan(Some(r), true, false, true);
    assert!(!q.streaming_only && q.pending_resize.is_none() && !q.pending_send_to_background);
}

#[test]
fn resize_then_background_on_x11() {
    let mut s = WindowSchedule::new(Some((640, 480)), true);
    for _ in 0..4 {
        let a = s.step(false, false);
        assert!(a.resize_to.is_none() && a.repaint && !a.start_capture);
    }
    let a = s.step(false, false);
    assert_eq!(a.resize_to, Some((640, 480)));
    assert!(a.start_capture);
    assert!(!a.send_to_background);
    assert!(!s.resize_pending());
    // the background step started counting in the resize frame
    let mut fired_after = 0;
    for i in 1..=20 {
        let a = s.step(false, true);
        if a.send_to_background {
            fired_after = i;
            break;
        }
    }
    assert_eq!(fired_after, 8);
    let idle = s.step(false, true);
    assert!(!idle.repaint && !idle.send_to_background && idle.resize_to.is_none());
}

#[test]
fn wayland_waits_longer() {
    let mut s = WindowSchedule::new(None, false);
    s.schedule_resize(100, 50);
    for _ in 0..14 {
        assert!(s.step(true, true).resize_to.is_none());
    }
    let a = s.step(true, true);
    assert_eq!(a.resize_to, Some((100, 50)));
    assert!(!a.start_capture);
}

#[test]
fn capture_region_is_clamped() {
    assert_eq!(
        sanitize_capture_region(Rectangle::new(-5, 7, 0, 5000)),
        Rectangle::new(0, 7, 1, 2160)
    );
    assert_eq!(
        sanitize_capture_region(Rectangle::new(3, -1, 4000, 0)),
        Rectangle::new(3, 0, 3840, 1)
    );
    assert_eq!(
        sanitize_capture_region(Rectangle::new(3, 4, 640, 480)),
        Rectangle::new(3, 4, 640, 480)
    );
}

#[test]
fn capture_loop_skips_repeats_and_reports_every_tenth() {
    let mut l = CaptureLoop::new();
    assert_eq!(l.on_frame(0, 100), FrameVerdict::Skip);
    assert_eq!(l.frames_skipped, 1);
    let mut reports = 0;
    for seq in 1..=19u64 {
        match l.on_frame(seq, 10) {
            FrameVerdict::Emit { report_stats } => {
                if report_stats {
                    reports += 1;
                }
            }
            FrameVerdict::Skip => panic!("no repeat here"),
        }
    }
    assert_eq!(l.frame_count, 20);
    assert_eq!(reports, 2);
    assert_eq!(l.on_frame(19, 10), FrameVerdict::Skip);
    assert_eq!(l.total_bytes_sent, 190);
    assert_eq!(l.last_sequence, 19);
}

#[test]
fn pixels_for_display() {
    let bgra = [1u8, 2, 3, 4, 5, 6, 7, 8];
    assert_eq!(
        display_rgba(&bgra, 2, 1, PixelFormat::BGRA8888).unwrap(),
        vec![3, 2, 1, 255, 7, 6, 5, 255]
    );
    assert_eq!(
        display_rgba(&bgra, 2, 1, PixelFormat::RGBA8888).unwrap(),
        vec![1, 2, 3, 255, 5, 6, 7, 255]
    );
    assert_eq!(
        display_rgba(&bgra, 3, 1, PixelFormat::BGRA8888).unwrap_err(),
        "Not enough data: got 8 bytes, expected 12"
    );
}

#[test]
fn counts_processors() {
    let info = "processor\t: 0\nmodel name\t: x\n\nprocessor\t: 1\r\nflags: processor\nprocessors\n";
    assert_eq!(count_processor_lines(info), 3);
    assert_eq!(count_processor_lines(""), 0);
    assert_eq!(count_processor_lines("processor"), 1);
    assert_eq!(count_processor_lines(" processor"), 0);
}

#[test]
fn can_count_guards_each_counter() {
    let full = CaptureLoop { frame_count: u32::MAX, frames_skipped: 0, last_sequence: 0, total_bytes_sent: 0 };
    assert!(!full.can_count(1, 0));
    let skipped = CaptureLoop { frame_count: 0, frames_skipped: u32::MAX, last_sequence: 7, total_bytes_sent: 0 };
    assert!(!skipped.can_count(7, 0));
    assert!(skipped.can_count(8, 0));
    let bytes = CaptureLoop { frame_count: 0, frames_skipped: 0, last_sequence: 7, total_bytes_sent: u64::MAX - 5 };
    assert!(bytes.can_count(8, 5));
    assert!(!bytes.can_count(8, 6));
    assert!(bytes.can_count(7, 6));
}

#[test]
fn selected_region_is_shown_pixel_for_pixel() {
    let (fw, fh) = (64u32, 48u32);
    let mut data = vec![0u8; (fw * fh * 4) as usize];
    for (i, b) in data.iter_mut().enumerate() {
        *b = (i % 251) as u8;
    }
    let frame = PipeWireFrame {
        width: fw,
        height: fh,
        data: Arc::new(data.clone()),
        format: PixelFormat::BGRA8888,
        timestamp: Instant::now(),
    };
    let region = Rectangle::new(5, 7, 20, 10);
    let cut = extract_region(&frame, &region);
    let shown = display_rgba(&cut, region.width, region.height, frame.format).unwrap();
    for py in 0..region.height as usize {
        for px in 0..region.width as usize {
            let o = 4 * (py * region.width as usize + px);
            let s = 4 * ((region.y as usize + py) * fw as usize + region.x as usize + px);
            assert_eq!(&shown[o..o + 4], &[data[s + 2], data[s + 1], data[s], 255]);
        }
    }
}

#[test]
fn sanitizing_twice_changes_nothing() {
    for r in [
        Rectangle::new(-5, 10, 0, 5000),
        Rectangle::new(3, -1, 10_000, 0),
        Rectangle::new(100, 200, 800, 600),
    ] {
        let once = sanitize_capture_region(r);
        assert_eq!(sanitize_capture_region(once), once);
        assert!(once.x >= 0 && once.y >= 0);
        assert!((1..=3840).contains(&once.width) && (1..=2160).contains(&once.height));
    }
}
