use region_to_share::performance::{BufferPool, FrameProfiler};
use std::time::{Duration, Instant};

#[test]
fn test_buffer_pool() {
    let mut pool = BufferPool::new(1024, 5);

    assert_eq!(pool.available(), 5);

    let buf1 = pool.acquire();
    assert_eq!(buf1.len(), 1024);
    assert_eq!(pool.available(), 4);

    pool.release(buf1);
    assert_eq!(pool.available(), 5);
}

#[test]
fn test_buffer_pool_overflow() {
    let mut pool = BufferPool::new(512, 2);

    let _buf1 = pool.acquire();
    let _buf2 = pool.acquire();
    let buf3 = pool.acquire(); // Should allocate new

    assert_eq!(buf3.len(), 512);
    assert_eq!(pool.available(), 0);
}

#[test]
fn released_buffers_come_back_zeroed() {
    let mut pool = BufferPool::new(8, 1);
    let mut b = pool.acquire();
    assert!(b.iter().all(|&x| x == 0));
    for x in b.iter_mut() {
        *x = 0xAB;
    }
    pool.release(b);
    let again = pool.acquire();
    assert_eq!(again, vec![0u8; 8]);
}

#[test]
fn wrong_sized_buffers_are_dropped() {
    let mut pool = BufferPool::new(16, 0);
    pool.release(vec![1u8; 15]);
    assert_eq!(pool.available(), 0);
    pool.release(vec![1u8; 16]);
    assert_eq!(pool.available(), 1);
}

#[test]
fn capture_window_keeps_last_samples() {
    let mut profiler = FrameProfiler::new(3);
    for ms in 1..=5u64 {
        profiler.record_capture(Duration::from_millis(ms));
    }
    let kept: Vec<Duration> = profiler.capture_times().iter().copied().collect();
    assert_eq!(
        kept,
        vec![Duration::from_millis(3), Duration::from_millis(4), Duration::from_millis(5)]
    );
    assert!(profiler.frame_times().is_empty());
}

#[test]
fn frame_window_records_time_between_starts() {
    let mut profiler = FrameProfiler::new(2);
    let t0 = Instant::now();
    profiler.start_frame_at(t0);
    assert!(profiler.frame_times().is_empty());
    profiler.start_frame_at(t0 + Duration::from_millis(16));
    profiler.start_frame_at(t0 + Duration::from_millis(40));
    profiler.start_frame_at(t0 + Duration::from_millis(50));
    let kept: Vec<Duration> = profiler.frame_times().iter().copied().collect();
    assert_eq!(kept, vec![Duration::from_millis(24), Duration::from_millis(10)]);
}

#[test]
fn profiler_reset_clears_windows() {
    let mut profiler = FrameProfiler::new(100);
    profiler.start_frame();
    profiler.start_frame();
    profiler.record_capture(Duration::from_millis(5));
    profiler.reset();
    assert!(profiler.frame_times().is_empty());
    assert!(profiler.capture_times().is_empty());
    profiler.start_frame();
    assert!(profiler.frame_times().is_empty());
}

#[test]
fn zero_sample_window_keeps_nothing() {
    let mut profiler = FrameProfiler::new(0);
    profiler.record_capture(Duration::from_millis(1));
    assert!(profiler.capture_times().is_empty());
}

#[test]
fn test_profiler_reset() {
    let mut profiler = FrameProfiler::new(100);

    profiler.start_frame();
    profiler.record_capture(Duration::from_millis(5));

    profiler.reset();

    // Empty windows are what make the average rates read zero.
    assert!(profiler.frame_times().is_empty());
    assert!(profiler.capture_times().is_empty());
}

#[test]
fn frame_window_over_many_starts() {
    let t0 = Instant::now();
    let starts = [0u64, 10, 25, 45, 70].map(|ms| t0 + Duration::from_millis(ms));
    let mut profiler = FrameProfiler::new(2);
    profiler.start_frame_at(starts[0]);
    assert!(profiler.frame_times().is_empty());
    for t in &starts[1..] {
        profiler.start_frame_at(*t);
    }
    let kept: Vec<Duration> = profiler.frame_times().iter().copied().collect();
    assert_eq!(kept, vec![Duration::from_millis(20), Duration::from_millis(25)]);
}
