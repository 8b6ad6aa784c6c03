use confgrabber::errors::{ConfigError, ErrorKind};

#[test]
fn describe_io_error() {
    let e = ConfigError::IoError(String::from("disk full"));
    assert_eq!(e.describe(), "IO error: disk full");
}

#[test]
fn describe_network_error() {
    let e = ConfigError::NetworkError(String::from("connection refused"));
    assert_eq!(e.describe(), "Network error: connection refused");
}

#[test]
fn describe_parse_error() {
    let e = ConfigError::ParseError(String::from("bad body"));
    assert_eq!(e.describe(), "Parse error: bad body");
}

#[test]
fn describe_device_unavailable() {
    let e = ConfigError::DeviceUnavailable(String::from("sw1 does not respond to ping"));
    assert_eq!(e.describe(), "Device unavailable: sw1 does not respond to ping");
}

#[test]
fn describe_authentication_error() {
    let e = ConfigError::AuthenticationError(String::from("Authentication failed for sw1"));
    assert_eq!(e.describe(), "Authentication error: Authentication failed for sw1");
}

#[test]
fn describe_unknown_error() {
    let e = ConfigError::UnknownError(String::from("HTTP error: 503"));
    assert_eq!(e.describe(), "Unknown error: HTTP error: 503");
}

#[test]
fn kinds_match_variants() {
    assert_eq!(ConfigError::IoError(String::new()).kind(), ErrorKind::Io);
    assert_eq!(ConfigError::NetworkError(String::new()).kind(), ErrorKind::Network);
    assert_eq!(ConfigError::ParseError(String::new()).kind(), ErrorKind::Parse);
    assert_eq!(
        ConfigError::DeviceUnavailable(String::new()).kind(),
        ErrorKind::DeviceUnavailable
    );
    assert_eq!(
        ConfigError::AuthenticationError(String::new()).kind(),
        ErrorKind::Authentication
    );
    assert_eq!(ConfigError::UnknownError(String::new()).kind(), ErrorKind::Unknown);
}

#[test]
fn only_network_parse_unknown_are_retryable() {
    assert!(ConfigError::NetworkError(String::new()).is_retryable());
    assert!(ConfigError::ParseError(String::new()).is_retryable());
    assert!(ConfigError::UnknownError(String::new()).is_retryable());
    assert!(!ConfigError::IoError(String::new()).is_retryable());
    assert!(!ConfigError::DeviceUnavailable(String::new()).is_retryable());
    assert!(!ConfigError::AuthenticationError(String::new()).is_retryable());
}
