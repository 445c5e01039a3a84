use region_to_share::capture::CaptureError;
use region_to_share::frame::FrameData;
use region_to_share::geometry::{PixelFormat, Rectangle};
use region_to_share::pipewire::{
    connect_poll, extract_region, extraction_fits, frame_from_chunk, PipeWireFrame, StreamProgress,
    StreamState,
};
use std::sync::Arc;
use std::time::Instant;

fn make_frame(width: u32, height: u32) -> PipeWireFrame {
    let bpp = 4usize;
    let size = (width as usize) * (height as usize) * bpp;
    let mut data = vec![0u8; size];
    for y in 0..height {
        for x in 0..width {
            let offset = ((y * width + x) as usize) * bpp;
            data[offset] = ((x + y * width) % 256) as u8;
            data[offset + 1] = 0;
            data[offset + 2] = 0;
            data[offset + 3] = 255;
        }
    }
    PipeWireFrame {
        width,
        height,
        data: Arc::new(data),
        format: PixelFormat::BGRA8888,
        timestamp: Instant::now(),
    }
}

#[test]
fn extract_region_full_frame() {
    let frame = make_frame(100, 100);
    let region = Rectangle::new(0, 0, 100, 100);
    let result = extract_region(&frame, &region);
    assert_eq!(result.len(), frame.data.len());
}

#[test]
fn extract_region_subset() {
    let frame = make_frame(100, 100);
    let region = Rectangle::new(10, 20, 30, 40);
    let result = extract_region(&frame, &region);
    let bpp = 4usize;
    let expected_size = 30 * 40 * bpp;
    assert_eq!(result.len(), expected_size);

    let src_offset = (20 * 100 + 10) * bpp;
    assert_eq!(result[0], frame.data[src_offset]);
}

#[test]
fn extract_region_with_scaled_coordinates() {
    let frame = make_frame(200, 100);
    let scaled_region = Rectangle::new(100, 66, 66, 33);
    let result = extract_region(&frame, &scaled_region);
    let bpp = 4usize;
    assert_eq!(result.len(), 66 * 33 * bpp);

    let src_offset = (66 * 200 + 100) * bpp;
    assert_eq!(result[0], frame.data[src_offset]);
}

#[test]
fn extract_full_frame_gives_same_bytes() {
    let frame = make_frame(7, 5);
    let result = extract_region(&frame, &Rectangle::new(0, 0, 7, 5));
    assert_eq!(*result, *frame.data);
}

#[test]
fn extract_rows_are_clamped_and_padded() {
    // a 2x3 frame of 4-byte pixels whose bytes count up from 0
    let data: Vec<u8> = (0u8..24).collect();
    let frame = PipeWireFrame {
        width: 2,
        height: 3,
        data: Arc::new(data),
        format: PixelFormat::BGRA8888,
        timestamp: Instant::now(),
    };
    // rows 2, 3, 4 of the region read frame row 2 (the last); column 1 on,
    // two pixels wide: one pixel of data then zero padding
    let out = extract_region(&frame, &Rectangle::new(1, 2, 2, 3));
    let row: Vec<u8> = vec![20, 21, 22, 23, 0, 0, 0, 0];
    let expected: Vec<u8> = row.iter().chain(row.iter()).chain(row.iter()).copied().collect();
    assert_eq!(*out, expected);
}

#[test]
fn extract_drops_rows_past_the_data() {
    // the data holds only one row of a 2x2 frame
    let frame = PipeWireFrame {
        width: 2,
        height: 2,
        data: Arc::new(vec![1, 2, 3, 4, 5, 6, 7, 8]),
        format: PixelFormat::BGRA8888,
        timestamp: Instant::now(),
    };
    let out = extract_region(&frame, &Rectangle::new(0, 0, 2, 2));
    assert_eq!(*out, vec![1, 2, 3, 4, 5, 6, 7, 8]);
}

#[test]
fn extract_three_byte_pixels() {
    let data: Vec<u8> = (0u8..18).collect();
    let frame = PipeWireFrame {
        width: 3,
        height: 2,
        data: Arc::new(data),
        format: PixelFormat::RGB888,
        timestamp: Instant::now(),
    };
    let out = extract_region(&frame, &Rectangle::new(1, 1, 1, 1));
    assert_eq!(*out, vec![12, 13, 14]);
}

#[test]
fn state_codes_round_trip() {
    for s in [
        StreamState::Disconnected,
        StreamState::Connecting,
        StreamState::Paused,
        StreamState::Streaming,
        StreamState::Error,
    ] {
        assert_eq!(StreamState::from_code(s.code()), s);
    }
    assert_eq!(StreamState::from_code(77), StreamState::Error);
    assert!(StreamState::Paused.accepts_capture());
    assert!(!StreamState::Disconnected.accepts_capture());
    assert!(!StreamState::Error.accepts_capture());
}

#[test]
fn connect_poll_steps() {
    assert!(matches!(connect_poll(3, true), Ok(true)));
    assert!(matches!(connect_poll(1, false), Ok(false)));
    match connect_poll(4, false) {
        Err(CaptureError::InitFailed(m)) => assert_eq!(m, "PipeWire stream error"),
        other => panic!("unexpected {:?}", other),
    }
    match connect_poll(1, true) {
        Err(CaptureError::InitFailed(m)) => assert_eq!(m, "Timeout waiting for stream"),
        other => panic!("unexpected {:?}", other),
    }
}

#[test]
fn chunk_to_frame() {
    let mapped: Vec<u8> = (0u8..40).collect();
    let now = Instant::now();
    // 16 bytes from offset 4 with a stride of 8: 2x2 pixels
    let f = frame_from_chunk(&mapped, 8, 16, 4, now).unwrap();
    assert_eq!((f.width, f.height), (2, 2));
    assert_eq!(*f.data, (4u8..20).collect::<Vec<u8>>());
    assert_eq!(f.format, PixelFormat::BGRA8888);
    // a chunk reaching past the mapping is cut short
    let g = frame_from_chunk(&mapped, 8, 100, 30, now).unwrap();
    assert_eq!(g.data.len(), 10);
    assert_eq!(g.height, 1);
    assert!(frame_from_chunk(&mapped, 0, 16, 0, now).is_none());
    assert!(frame_from_chunk(&mapped, 8, 16, 40, now).is_none());
    assert!(frame_from_chunk(&mapped, 3, 16, 0, now).is_none());
    assert!(frame_from_chunk(&mapped, 64, 16, 0, now).is_none());
}

#[test]
fn progress_delivers_frames() {
    let mut progress = StreamProgress::new();
    assert_eq!(progress.stream_size(), (1920, 1080));
    let frame = make_frame(10, 10);
    let whole = progress.deliver(frame.clone(), Rectangle::new(0, 0, 10, 10));
    assert_eq!(whole.sequence, 1);
    assert_eq!(progress.stream_size(), (10, 10));
    match &whole.data {
        FrameData::Buffer(b) => assert!(Arc::ptr_eq(b, &frame.data)),
        _ => panic!("expected a buffer"),
    }
    let part = progress.deliver(frame.clone(), Rectangle::new(2, 3, 4, 5));
    assert_eq!(part.sequence, 2);
    assert_eq!((part.width, part.height), (4, 5));
    assert_eq!(part.data.as_buffer().unwrap().len(), 4 * 5 * 4);
    assert_eq!(part.data.as_buffer().unwrap()[0], frame.data[(3 * 10 + 2) * 4]);
}

#[test]
fn extraction_fits_ordinary_and_degenerate_inputs() {
    let frame = make_frame(100, 100);
    assert!(extraction_fits(&frame, &Rectangle::new(10, 20, 30, 40)));
    assert!(extraction_fits(&frame, &Rectangle::new(0, 0, 100, 100)));
    // A frame without rows cannot give a region with rows.
    let empty = make_frame(100, 0);
    assert!(!extraction_fits(&empty, &Rectangle::new(0, 0, 10, 10)));
    // A region without rows reads nothing.
    assert!(extraction_fits(&empty, &Rectangle::new(0, 0, 10, 0)));
    // A negative origin reads as a huge offset that overflows.
    assert!(!extraction_fits(&frame, &Rectangle::new(-1, 0, 10, 10)));
}

#[test]
fn deliverable_checks_sequence_and_extraction() {
    let frame = make_frame(100, 100);
    let p = StreamProgress::new();
    assert!(p.deliverable(&frame, &Rectangle::new(0, 0, 100, 100)));
    assert!(p.deliverable(&frame, &Rectangle::new(10, 20, 30, 40)));
    assert!(!p.deliverable(&frame, &Rectangle::new(-1, 0, 10, 10)));
    let done = StreamProgress { sequence: u64::MAX, stream_width: 100, stream_height: 100 };
    assert!(!done.deliverable(&frame, &Rectangle::new(0, 0, 100, 100)));
}
