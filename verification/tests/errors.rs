use region_to_share::capture::{pixel_format_for_depth, CaptureError};
use region_to_share::config::{invalid_value, validate_frame_rate};
use region_to_share::error::{ConfigError, CoreError};
use region_to_share::geometry::PixelFormat;

#[test]
fn backend_test_error_display() {
    let err = CaptureError::InitFailed("test error".to_string());
    assert_eq!(err.to_string(), "Backend initialization failed: test error");

    let err = CaptureError::UnsupportedFormat("RGB888".to_string());
    assert!(err.to_string().contains("Unsupported pixel format"));
}

#[test]
fn error_test_error_display() {
    let err = CoreError::InvalidRectangle("width cannot be zero".to_string());
    assert_eq!(err.to_string(), "Invalid rectangle: width cannot be zero");
}

#[test]
fn test_config_error_display() {
    let err = ConfigError::InvalidValue {
        key: "fps".to_string(),
        message: "must be positive".to_string(),
    };
    assert_eq!(
        err.to_string(),
        "Invalid config value for 'fps': must be positive"
    );
}

#[test]
fn test_error_from_io() {
    let io_err = std::io::Error::new(std::io::ErrorKind::NotFound, "file not found");
    let core_err = CoreError::from(io_err);
    assert!(matches!(core_err, CoreError::Io(_)));
}

#[test]
fn test_error_from_config() {
    let config_err = ConfigError::NoConfigDir;
    let core_err = CoreError::from(config_err);
    assert!(matches!(core_err, CoreError::Config(_)));
}

#[test]
fn every_core_error_message() {
    assert_eq!(CoreError::InvalidPoint("p".to_string()).to_string(), "Invalid point: p");
    assert_eq!(CoreError::InvalidPixelFormat("q".to_string()).to_string(), "Invalid pixel format: q");
    assert_eq!(
        CoreError::Config(ConfigError::MissingField("fps".to_string())).to_string(),
        "Configuration error: Missing required config field: fps"
    );
    assert_eq!(CoreError::Serialization("bad".to_string()).to_string(), "Serialization error: bad");
    assert_eq!(CoreError::Custom("plain".to_string()).to_string(), "plain");
    let io = std::io::Error::new(std::io::ErrorKind::NotFound, "file not found");
    assert_eq!(CoreError::Io(io).to_string(), "IO error: file not found");
}

#[test]
fn every_config_error_message() {
    assert_eq!(ConfigError::NoConfigDir.to_string(), "Could not determine config directory");
    assert_eq!(ConfigError::ParseError("x".to_string()).to_string(), "Failed to parse config: x");
    assert_eq!(ConfigError::WriteError("y".to_string()).to_string(), "Failed to write config: y");
}

#[test]
fn every_capture_error_message() {
    assert_eq!(CaptureError::CaptureFailed("a".to_string()).to_string(), "Capture failed: a");
    assert_eq!(CaptureError::InvalidRegion("b".to_string()).to_string(), "Invalid region: b");
    assert_eq!(CaptureError::NotAvailable("c".to_string()).to_string(), "Backend not available: c");
    assert_eq!(CaptureError::Other("d".to_string()).to_string(), "d");
    let io = std::io::Error::new(std::io::ErrorKind::Other, "disk");
    assert_eq!(CaptureError::from(io).to_string(), "IO error: disk");
}

#[test]
fn frame_rate_rule() {
    assert!(validate_frame_rate(1).is_ok());
    assert!(validate_frame_rate(30).is_ok());
    assert!(validate_frame_rate(240).is_ok());
    for bad in [0u32, 241, u32::MAX] {
        match validate_frame_rate(bad) {
            Err(ConfigError::InvalidValue { key, message }) => {
                assert_eq!(key, "capture.frame_rate");
                assert_eq!(message, "must be between 1 and 240");
            }
            other => panic!("unexpected {:?}", other),
        }
    }
}

#[test]
fn invalid_value_error_carries_key_and_message() {
    let e = invalid_value("display.opacity", "must be between 0.0 and 1.0");
    assert_eq!(
        e.to_string(),
        "Invalid config value for 'display.opacity': must be between 0.0 and 1.0"
    );
}

#[test]
fn x_depths() {
    assert!(matches!(pixel_format_for_depth(24), Ok(PixelFormat::BGRA8888)));
    assert!(matches!(pixel_format_for_depth(32), Ok(PixelFormat::BGRA8888)));
    match pixel_format_for_depth(16) {
        Err(CaptureError::UnsupportedFormat(m)) => {
            assert_eq!(m, "Profondeur de couleur non supportée: 16")
        }
        other => panic!("unexpected {:?}", other),
    }
    match pixel_format_for_depth(8) {
        Err(e) => assert_eq!(e.to_string(), "Unsupported pixel format: Profondeur de couleur non supportée: 8"),
        other => panic!("unexpected {:?}", other),
    }
}
