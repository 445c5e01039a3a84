//! Error types for core operations and configuration, with their messages.
use vstd::prelude::*;
use vstd::string::to_string_from_display_ensures;

verus! {

/// `std::io::Error`, carried through the library as an opaque value.
#[verifier::external_type_specification]
#[verifier::external_body]
pub struct ExIoError(std::io::Error);

/// `prefix` followed by `detail`.
pub fn prefixed(prefix: &str, detail: &str) -> (s: String)
    ensures
        s@ == prefix@ + detail@,
{
    let mut s = String::from_str(prefix);
    s.append(detail);
    s
}

/// The text that `Display` gives an I/O error, after `prefix`.
pub fn prefixed_io_error(prefix: &str, err: &std::io::Error) -> (s: String)
    ensures
        exists|text: String|
            to_string_from_display_ensures::<std::io::Error>(err, text) && s@ == prefix@ + text@,
{
    let text = err.to_string();
    prefixed(prefix, text.as_str())
}

/// Configuration-specific errors.
#[derive(Debug)]
pub enum ConfigError {
    /// Failed to find config directory.
    NoConfigDir,
    /// Failed to parse config file.
    ParseError(String),
    /// Failed to write config file.
    WriteError(String),
    /// Invalid config value.
    InvalidValue { key: String, message: String },
    /// Missing required config field.
    MissingField(String),
}

impl ConfigError {
    /// The message of the error, as shown to the user.
    pub open spec fn spec_message(&self) -> Seq<char> {
        match self {
            ConfigError::NoConfigDir => "Could not determine config directory"@,
            ConfigError::ParseError(m) => "Failed to parse config: "@ + m@,
            ConfigError::WriteError(m) => "Failed to write config: "@ + m@,
            ConfigError::InvalidValue { key, message } => "Invalid config value for '"@ + key@
                + "': "@ + message@,
            ConfigError::MissingField(m) => "Missing required config field: "@ + m@,
        }
    }

    /// The message of the error, as shown to the user.
    pub fn to_string(&self) -> (s: String)
        ensures
            s@ == self.spec_message(),
    {
        match self {
            ConfigError::NoConfigDir => String::from_str("Could not determine config directory"),
            ConfigError::ParseError(m) => prefixed("Failed to parse config: ", m.as_str()),
            ConfigError::WriteError(m) => prefixed("Failed to write config: ", m.as_str()),
            ConfigError::InvalidValue { key, message } => {
                let mut s = prefixed("Invalid config value for '", key.as_str());
                s.append("': ");
                s.append(message.as_str());
                s
            },
            ConfigError::MissingField(m) => prefixed("Missing required config field: ", m.as_str()),
        }
    }
}

/// Main error type for core operations.
#[derive(Debug)]
pub enum CoreError {
    /// Invalid rectangle dimensions.
    InvalidRectangle(String),
    /// Invalid point coordinates.
    InvalidPoint(String),
    /// Invalid pixel format.
    InvalidPixelFormat(String),
    /// Configuration error.
    Config(ConfigError),
    /// IO error.
    Io(std::io::Error),
    /// Serialization error.
    Serialization(String),
    /// Generic error with custom message.
    Custom(String),
}

impl CoreError {
    /// The message of the error, as shown to the user; for an I/O error it
    /// is `"IO error: "` followed by what the I/O error displays.
    pub fn to_string(&self) -> (s: String)
        ensures
            match self {
                CoreError::InvalidRectangle(m) => s@ == "Invalid rectangle: "@ + m@,
                CoreError::InvalidPoint(m) => s@ == "Invalid point: "@ + m@,
                CoreError::InvalidPixelFormat(m) => s@ == "Invalid pixel format: "@ + m@,
                CoreError::Config(e) => s@ == "Configuration error: "@ + e.spec_message(),
                CoreError::Io(e) => exists|text: String|
                    to_string_from_display_ensures::<std::io::Error>(e, text) && s@
                        == "IO error: "@ + text@,
                CoreError::Serialization(m) => s@ == "Serialization error: "@ + m@,
                CoreError::Custom(m) => s@ == m@,
            },
    {
        match self {
            CoreError::InvalidRectangle(m) => prefixed("Invalid rectangle: ", m.as_str()),
            CoreError::InvalidPoint(m) => prefixed("Invalid point: ", m.as_str()),
            CoreError::InvalidPixelFormat(m) => prefixed("Invalid pixel format: ", m.as_str()),
            CoreError::Config(e) => {
                let inner = e.to_string();
                prefixed("Configuration error: ", inner.as_str())
            },
            CoreError::Io(e) => prefixed_io_error("IO error: ", e),
            CoreError::Serialization(m) => prefixed("Serialization error: ", m.as_str()),
            CoreError::Custom(m) => m.clone(),
        }
    }
}

impl From<ConfigError> for CoreError {
    fn from(err: ConfigError) -> (e: Self) {
        CoreError::Config(err)
    }
}

impl vstd::std_specs::convert::FromSpecImpl<ConfigError> for CoreError {
    open spec fn obeys_from_spec() -> bool {
        true
    }

    open spec fn from_spec(v: ConfigError) -> CoreError {
        CoreError::Config(v)
    }
}

impl From<std::io::Error> for CoreError {
    fn from(err: std::io::Error) -> (e: Self) {
        CoreError::Io(err)
    }
}

impl vstd::std_specs::convert::FromSpecImpl<std::io::Error> for CoreError {
    open spec fn obeys_from_spec() -> bool {
        true
    }

    open spec fn from_spec(v: std::io::Error) -> CoreError {
        CoreError::Io(v)
    }
}

} // verus!
