use region_to_share::geometry::Rectangle;
use region_to_share::capture::CaptureError;
use region_to_share::portal::{session_failure, PortalCapture, PortalError, SourceKind, StreamInfo};
use region_to_share::portal_backend::{PortalBackendState, StreamScaling};

#[test]
fn new_capture_is_inactive() {
    let capture = PortalCapture::new();
    assert!(!capture.is_active());
    assert!(capture.streams().is_empty());
    assert!(capture.node_id().is_none());
    assert!(capture.restore_token().is_none());
}

#[test]
fn session_records_streams_and_token() {
    let mut capture = PortalCapture::new();
    assert!(matches!(capture.record_session(vec![], Some("t".to_string())), Err(PortalError::NoStreams)));
    assert!(capture.restore_token().is_none());
    let streams = vec![
        StreamInfo::from_portal(42, Some((2560, 1440)), Some(SourceKind::Monitor)),
        StreamInfo::from_portal(43, None, None),
    ];
    let got = capture.record_session(streams, Some("token-1".to_string())).unwrap();
    assert_eq!(got.len(), 2);
    assert_eq!(got[0].node_id, 42);
    assert_eq!((got[0].width, got[0].height), (2560, 1440));
    assert_eq!(got[0].source_type, "monitor");
    assert_eq!((got[1].width, got[1].height), (1920, 1080));
    assert_eq!(got[1].source_type, "unknown");
    assert!(capture.is_active());
    assert_eq!(capture.node_id(), Some(42));
    assert_eq!(capture.restore_token().unwrap().0, "token-1");
    assert!(capture.close().is_ok());
    assert!(!capture.is_active());
    assert_eq!(capture.restore_token().unwrap().0, "token-1");
}

#[test]
fn stream_source_names() {
    assert_eq!(StreamInfo::from_portal(1, None, Some(SourceKind::Window)).source_type, "window");
    assert_eq!(StreamInfo::from_portal(1, None, Some(SourceKind::Virtual)).source_type, "virtual");
    assert_eq!(StreamInfo::from_portal(1, Some((-1, 5)), None).width, u32::MAX);
}

#[test]
fn portal_error_messages() {
    assert_eq!(PortalError::RequestFailed("x".to_string()).to_string(), "Portal request failed: x");
    assert_eq!(PortalError::UserCancelled.to_string(), "User cancelled the request");
    assert_eq!(PortalError::NoStreams.to_string(), "No streams available");
    assert_eq!(PortalError::PipeWire("y".to_string()).to_string(), "PipeWire error: y");
}

#[test]
fn backend_state_defaults() {
    let s = PortalBackendState::new();
    assert_eq!(s.region, Rectangle::new(0, 0, 1920, 1080));
    assert_eq!(s.screen_size, (1920, 1080));
    assert!(s.portal_reported_size.is_none());
    assert!(s.node_id.is_none());
    assert_eq!(s.sequence, 0);
    assert_eq!(s.screen_size_for_regions(), (1920, 1080));
}

#[test]
fn fractional_scaling_is_detected() {
    let mut s = PortalBackendState::new();
    assert!(s.scaling((5120, 2160)).is_none());
    s.record_stream(&StreamInfo::from_portal(7, Some((3840, 1620)), None));
    assert_eq!(s.node_id, Some(7));
    assert!(s.record_probed_size(5120, 2160));
    assert_eq!(s.screen_size, (5120, 2160));
    assert_eq!(s.screen_size_for_regions(), (3840, 1620));
    assert_eq!(
        s.scaling((5120, 2160)),
        Some(StreamScaling { portal_width: 3840, portal_height: 1620, stream_width: 5120, stream_height: 2160 })
    );
    assert!(s.scaling((3840, 1620)).is_none());
    assert!(s.scaling((0, 0)).is_none());
    assert!(!s.record_probed_size(0, 0));
}

#[test]
fn screenshot_region_prefers_stream_size() {
    let mut s = PortalBackendState::new();
    assert_eq!(s.screenshot_region((0, 0)), Rectangle::new(0, 0, 1920, 1080));
    assert_eq!(s.screenshot_region((800, 600)), Rectangle::new(0, 0, 800, 600));
    s.record_screenshot(800, 600);
    assert_eq!(s.screen_size, (800, 600));
    s.count_frame();
    assert_eq!(s.sequence, 1);
}

#[test]
fn failed_sessions_become_init_errors() {
    match session_failure(&PortalError::UserCancelled) {
        CaptureError::InitFailed(m) => assert_eq!(m, "User cancelled"),
        other => panic!("unexpected {:?}", other),
    }
    match session_failure(&PortalError::NoStreams) {
        CaptureError::InitFailed(m) => assert_eq!(m, "Session failed: No streams available"),
        other => panic!("unexpected {:?}", other),
    }
    match session_failure(&PortalError::RequestFailed("denied".to_string())) {
        CaptureError::InitFailed(m) => assert_eq!(m, "Session failed: Portal request failed: denied"),
        other => panic!("unexpected {:?}", other),
    }
}

#[test]
fn test_new_backend() {
    let backend = PortalBackendState::new();
    assert!(backend.node_id.is_none());
    assert_eq!(backend.screen_size, (1920, 1080));
    assert!(backend.portal_reported_size.is_none());
    assert_eq!(backend.sequence, 0);
}

#[test]
fn test_default_backend() {
    let backend = PortalBackendState::new();
    assert!(backend.node_id.is_none());
    assert_eq!(backend.screen_size, (1920, 1080));
}
