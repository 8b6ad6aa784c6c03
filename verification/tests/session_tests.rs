use confgrabber::errors::{ConfigError, ErrorKind};
use confgrabber::normalize::CanonicalOutput;
use confgrabber::session::{
    FetchOutcome, Session, SessionAction, SessionEvent, SessionPhase,
};
use confgrabber::text::render_canonical;

fn response(status: u16, body: &str) -> SessionEvent {
    SessionEvent::RpcResponse { status, body: body.to_string() }
}

fn failure_kind(s: &Session) -> Option<ErrorKind> {
    match &s.phase {
        SessionPhase::Done { outcome: FetchOutcome::Failure { error } } => Some(error.kind()),
        _ => None,
    }
}

#[test]
fn hostname_is_trimmed() {
    let s = Session::new("  sw1  \n", true);
    assert_eq!(s.hostname, "sw1");
    assert!(s.sanitized);
    assert!(matches!(s.phase, SessionPhase::Probing));
}

#[test]
fn failed_probe_means_no_rpc_and_device_unavailable() {
    let mut s = Session::new("unreachable-host", false);
    let a = s.on_event(SessionEvent::ProbeDone { reachable: false });
    assert_eq!(a, SessionAction::Halt);
    match &s.phase {
        SessionPhase::Done { outcome: FetchOutcome::Failure { error } } => match error {
            ConfigError::DeviceUnavailable(m) => {
                assert_eq!(m, "unreachable-host does not respond to ping");
            }
            other => panic!("wrong error: {}", other.describe()),
        },
        _ => panic!("session not decided"),
    }
}

#[test]
fn probe_process_failure_is_an_io_error() {
    let mut s = Session::new("sw1", false);
    let a = s.on_event(SessionEvent::ProbeError { message: "ping: not found".to_string() });
    assert_eq!(a, SessionAction::Halt);
    assert_eq!(failure_kind(&s), Some(ErrorKind::Io));
}

#[test]
fn successful_probe_starts_the_first_attempt() {
    let mut s = Session::new("sw1", false);
    let a = s.on_event(SessionEvent::ProbeDone { reachable: true });
    assert_eq!(a, SessionAction::SendRpc);
    assert!(matches!(s.phase, SessionPhase::Attempting { attempt: 0, .. }));
}

#[test]
fn http_401_ends_after_exactly_one_attempt() {
    let mut s = Session::new("sw1", false);
    s.on_event(SessionEvent::ProbeDone { reachable: true });
    let a = s.on_event(response(401, ""));
    assert_eq!(a, SessionAction::Halt);
    match &s.phase {
        SessionPhase::Done { outcome: FetchOutcome::Failure { error } } => match error {
            ConfigError::AuthenticationError(m) => {
                assert_eq!(m, "Authentication failed for sw1");
            }
            other => panic!("wrong error: {}", other.describe()),
        },
        _ => panic!("session not decided"),
    }
}

#[test]
fn http_401_on_a_later_attempt_is_still_terminal() {
    let mut s = Session::new("sw1", false);
    s.on_event(SessionEvent::ProbeDone { reachable: true });
    let a1 = s.on_event(response(503, ""));
    assert_eq!(a1, SessionAction::RetryAfter { delay_ms: 1000 });
    let a2 = s.on_event(response(401, ""));
    assert_eq!(a2, SessionAction::Halt);
    assert_eq!(failure_kind(&s), Some(ErrorKind::Authentication));
}

#[test]
fn third_attempt_success_after_two_transients() {
    let good = r#"{"result":[{},{"output":["hostname sw1","interface Eth1"]}]}"#;
    let mut s = Session::new("sw1", false);
    s.on_event(SessionEvent::ProbeDone { reachable: true });
    let a1 = s.on_event(SessionEvent::RpcTransportError {
        message: "connection reset".to_string(),
    });
    assert_eq!(a1, SessionAction::RetryAfter { delay_ms: 1000 });
    let a2 = s.on_event(response(500, ""));
    assert_eq!(a2, SessionAction::RetryAfter { delay_ms: 2000 });
    let a3 = s.on_event(response(200, good));
    assert_eq!(a3, SessionAction::Halt);
    match &s.phase {
        SessionPhase::Done { outcome: FetchOutcome::Success { output } } => {
            assert_eq!(render_canonical(output), "hostname sw1\ninterface Eth1\n");
        }
        _ => panic!("expected success"),
    }
}

#[test]
fn http_500_three_times_exhausts_with_a_retryable_failure() {
    let mut s = Session::new("sw1", false);
    s.on_event(SessionEvent::ProbeDone { reachable: true });
    let a1 = s.on_event(response(500, ""));
    let a2 = s.on_event(response(500, ""));
    let a3 = s.on_event(response(500, ""));
    // backoff delays 1 s and 2 s: about 3 seconds in all, none after the
    // final attempt
    assert_eq!(a1, SessionAction::RetryAfter { delay_ms: 1000 });
    assert_eq!(a2, SessionAction::RetryAfter { delay_ms: 2000 });
    assert_eq!(a3, SessionAction::Halt);
    match &s.phase {
        SessionPhase::Done { outcome: FetchOutcome::Failure { error } } => {
            assert!(error.is_retryable());
            assert_ne!(error.kind(), ErrorKind::Authentication);
            match error {
                ConfigError::UnknownError(m) => assert_eq!(m, "HTTP error: 500"),
                other => panic!("wrong error: {}", other.describe()),
            }
        }
        _ => panic!("expected failure"),
    }
}

#[test]
fn parse_failures_are_retried_and_exhaust() {
    let mut s = Session::new("sw1", false);
    s.on_event(SessionEvent::ProbeDone { reachable: true });
    let a1 = s.on_event(response(200, "garbage"));
    assert_eq!(a1, SessionAction::RetryAfter { delay_ms: 1000 });
    let a2 = s.on_event(response(200, "{}"));
    assert_eq!(a2, SessionAction::RetryAfter { delay_ms: 2000 });
    let a3 = s.on_event(response(200, r#"{"result":[{},{"output":7}]}"#));
    assert_eq!(a3, SessionAction::Halt);
    match &s.phase {
        SessionPhase::Done { outcome: FetchOutcome::Failure { error } } => match error {
            ConfigError::ParseError(m) => {
                assert_eq!(m, "Output is not in expected format for sw1");
            }
            other => panic!("wrong error: {}", other.describe()),
        },
        _ => panic!("expected failure"),
    }
}

#[test]
fn success_on_first_attempt_halts_at_once() {
    let mut s = Session::new("10.0.0.1", false);
    s.on_event(SessionEvent::ProbeDone { reachable: true });
    let a = s.on_event(response(200, r#"{"result":[{},{"output":"all of it"}]}"#));
    assert_eq!(a, SessionAction::Halt);
    match s.outcome() {
        Some(FetchOutcome::Success { output: CanonicalOutput::Verbatim(s) }) => {
            assert_eq!(s, "all of it");
        }
        _ => panic!("expected verbatim success"),
    }
}

#[test]
fn decided_session_stays_decided() {
    let mut s = Session::new("sw1", false);
    s.on_event(SessionEvent::ProbeDone { reachable: false });
    let a = s.on_event(response(200, r#"{"result":[{},{"output":"late"}]}"#));
    assert_eq!(a, SessionAction::Halt);
    assert_eq!(failure_kind(&s), Some(ErrorKind::DeviceUnavailable));
}
