//! The closed error taxonomy for per-device failures.

use vstd::prelude::*;
use vstd::string::StringExecFns;

verus! {

/// One device's classified failure. Every per-device error is contained in
/// the device's own session and surfaces as one of these variants; callers
/// branch on the variant, never on message text.
#[derive(Debug)]
pub enum ConfigError {
    /// Filesystem or probe-process failure.
    IoError(String),
    /// Transport-level failure of the RPC call.
    NetworkError(String),
    /// Malformed auth encoding, or an unparseable / unexpected-shape body.
    ParseError(String),
    /// The liveness probe failed: no RPC attempt is made.
    DeviceUnavailable(String),
    /// The device answered an attempt with HTTP 401.
    AuthenticationError(String),
    /// Fallback for unclassified failures and unexpected HTTP statuses.
    UnknownError(String),
}

/// The variant of a `ConfigError`, without its message. Fieldless, so tests
/// and drivers can compare outcomes structurally.
#[derive(Clone, Copy, Debug, PartialEq, Eq, Structural)]
pub enum ErrorKind {
    Io,
    Network,
    Parse,
    DeviceUnavailable,
    Authentication,
    Unknown,
}

impl ConfigError {
    /// The variant of this error, as a fieldless kind.
    pub open spec fn kind_spec(&self) -> ErrorKind {
        match self {
            ConfigError::IoError(_) => ErrorKind::Io,
            ConfigError::NetworkError(_) => ErrorKind::Network,
            ConfigError::ParseError(_) => ErrorKind::Parse,
            ConfigError::DeviceUnavailable(_) => ErrorKind::DeviceUnavailable,
            ConfigError::AuthenticationError(_) => ErrorKind::Authentication,
            ConfigError::UnknownError(_) => ErrorKind::Unknown,
        }
    }

    /// The message carried by this error.
    pub open spec fn message_spec(&self) -> Seq<char> {
        match self {
            ConfigError::IoError(m) => m@,
            ConfigError::NetworkError(m) => m@,
            ConfigError::ParseError(m) => m@,
            ConfigError::DeviceUnavailable(m) => m@,
            ConfigError::AuthenticationError(m) => m@,
            ConfigError::UnknownError(m) => m@,
        }
    }

    /// Retryable errors are the ones the retry controller may follow with
    /// another attempt; authentication failures and unavailable devices are
    /// terminal at once.
    pub open spec fn is_retryable_spec(&self) -> bool {
        match self {
            ConfigError::NetworkError(_) => true,
            ConfigError::ParseError(_) => true,
            ConfigError::UnknownError(_) => true,
            _ => false,
        }
    }

    #[verifier::when_used_as_spec(kind_spec)]
    pub fn kind(&self) -> (k: ErrorKind)
        ensures
            k == self.kind_spec(),
    {
        match self {
            ConfigError::IoError(_) => ErrorKind::Io,
            ConfigError::NetworkError(_) => ErrorKind::Network,
            ConfigError::ParseError(_) => ErrorKind::Parse,
            ConfigError::DeviceUnavailable(_) => ErrorKind::DeviceUnavailable,
            ConfigError::AuthenticationError(_) => ErrorKind::Authentication,
            ConfigError::UnknownError(_) => ErrorKind::Unknown,
        }
    }

    #[verifier::when_used_as_spec(is_retryable_spec)]
    pub fn is_retryable(&self) -> (r: bool)
        ensures
            r == self.is_retryable_spec(),
    {
        match self {
            ConfigError::NetworkError(_) => true,
            ConfigError::ParseError(_) => true,
            ConfigError::UnknownError(_) => true,
            _ => false,
        }
    }

    /// The prefix a rendered error message carries for each variant.
    pub open spec fn prefix_spec(&self) -> Seq<char> {
        match self {
            ConfigError::IoError(_) => "IO error: "@,
            ConfigError::NetworkError(_) => "Network error: "@,
            ConfigError::ParseError(_) => "Parse error: "@,
            ConfigError::DeviceUnavailable(_) => "Device unavailable: "@,
            ConfigError::AuthenticationError(_) => "Authentication error: "@,
            ConfigError::UnknownError(_) => "Unknown error: "@,
        }
    }

    /// Render the error as one human-readable line: a variant prefix
    /// followed by the carried message.
    pub fn describe(&self) -> (r: String)
        ensures
            r@ == self.prefix_spec() + self.message_spec(),
    {
        match self {
            ConfigError::IoError(m) => String::from_str("IO error: ").concat(m.as_str()),
            ConfigError::NetworkError(m) => String::from_str("Network error: ").concat(m.as_str()),
            ConfigError::ParseError(m) => String::from_str("Parse error: ").concat(m.as_str()),
            ConfigError::DeviceUnavailable(m) => String::from_str("Device unavailable: ").concat(
                m.as_str(),
            ),
            ConfigError::AuthenticationError(m) => String::from_str(
                "Authentication error: ",
            ).concat(m.as_str()),
            ConfigError::UnknownError(m) => String::from_str("Unknown error: ").concat(m.as_str()),
        }
    }
}

} // verus!
