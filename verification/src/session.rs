//! The per-device session: a state machine that owns one device's probe
//! gate and retry/backoff loop.
//!
//! The machine makes every decision; an unverified driver performs the
//! probe, the RPC call, the backoff sleep and the file write, and feeds the
//! outcome of each step back as a [`SessionEvent`]. The returned
//! [`SessionAction`] tells the driver what to do next. Within one device
//! the attempts are strictly sequential; a terminal outcome is never
//! followed by further work.

use vstd::prelude::*;
use vstd::string::StringExecFns;
use crate::MAX_RETRIES;
use crate::RETRY_BASE_DELAY_MS;
use crate::errors::ConfigError;
use crate::errors::ErrorKind;
use crate::normalize::CanonicalOutput;
use crate::normalize::Extraction;
use crate::normalize::extraction_of;
use crate::normalize::normalize_body;
use crate::normalize::normalize_spec;
use crate::text::decimal_of;
use crate::text::decimal_string;

verus! {

/// What trimming removes from a hostname. Which characters count as
/// whitespace is Unicode's business; the result is a function of the
/// string alone, so it only gets a name here.
pub uninterp spec fn trimmed_of(s: Seq<char>) -> Seq<char>;

/// Relies on `str::trim`: returns a subslice of the input with leading and
/// trailing whitespace removed, so the result is a function of the input
/// alone and no longer than it.
#[verifier::external_body]
fn trim_string(s: &str) -> (r: String)
    ensures
        r@ == trimmed_of(s@),
        r@.len() <= s@.len(),
{
    s.trim().to_string()
}

/// The terminal result for one device. Immutable once produced: a session
/// that reached it never issues further work.
pub enum FetchOutcome {
    /// The device's configuration was retrieved and normalized; the driver
    /// writes exactly this output to the device's file.
    Success { output: CanonicalOutput },
    /// The device failed; nothing is written for it.
    Failure { error: ConfigError },
}

/// Where one device's session stands.
pub enum SessionPhase {
    /// Waiting for the liveness probe's verdict; no RPC attempt has been
    /// issued yet.
    Probing,
    /// Waiting for the outcome of RPC attempt `attempt` (0-based);
    /// `last_error` is the retryable failure recorded by the previous
    /// attempt, if any.
    Attempting { attempt: u32, last_error: Option<ConfigError> },
    /// The device is decided.
    Done { outcome: FetchOutcome },
}

/// What the driver reports back to the session.
pub enum SessionEvent {
    /// The probe finished: the device answered, or it did not.
    ProbeDone { reachable: bool },
    /// The probe itself could not be run (a process-level failure).
    ProbeError { message: String },
    /// The RPC call returned an HTTP response.
    RpcResponse { status: u16, body: String },
    /// The RPC call failed below HTTP (connection refused, TLS failure,
    /// timeout).
    RpcTransportError { message: String },
}

/// What the driver must do next.
#[derive(Clone, Copy, Debug, PartialEq, Eq, Structural)]
pub enum SessionAction {
    /// Run the liveness probe and report `ProbeDone` or `ProbeError`.
    SendProbe,
    /// Issue the RPC call and report `RpcResponse` or `RpcTransportError`.
    SendRpc,
    /// Sleep `delay_ms` milliseconds, then issue the RPC call as for
    /// `SendRpc`.
    RetryAfter { delay_ms: u64 },
    /// The session is decided; perform no further work for this device.
    Halt,
}

/// One device's session: fixed configuration plus the current phase.
pub struct Session {
    /// The trimmed target hostname.
    pub hostname: String,
    /// Whether the sanitized form of the command is requested.
    pub sanitized: bool,
    /// Where the session stands.
    pub phase: SessionPhase,
}

/// The backoff delay before re-issuing attempt `n + 1`: the base delay
/// doubled once per completed attempt.
pub open spec fn retry_delay_ms(n: u32) -> int {
    RETRY_BASE_DELAY_MS * (1u64 << n)
}

/// The fixed configuration never changes across steps.
pub open spec fn config_kept(pre: Session, post: Session) -> bool {
    post.hostname@ == pre.hostname@ && post.sanitized == pre.sanitized
}

/// The message of the parse failure recorded for an unusable body.
pub open spec fn parse_failure_message(host: Seq<char>, x: Extraction) -> Seq<char> {
    match x {
        Extraction::Unparseable => "Failed to parse JSON response from "@ + host,
        Extraction::Missing => "Unexpected response format from "@ + host,
        _ => "Output is not in expected format for "@ + host,
    }
}

/// A retryable failure of kind `kind` with message `msg` was recorded
/// while attempt `n` was in flight: if attempts remain, the session moves
/// to the next attempt after the exponential backoff; otherwise it is
/// decided with that failure.
pub open spec fn retried_with(
    pre: Session,
    n: u32,
    post: Session,
    a: SessionAction,
    kind: ErrorKind,
    msg: Seq<char>,
) -> bool {
    if n + 1 < MAX_RETRIES {
        (post.phase matches SessionPhase::Attempting { attempt, last_error } && attempt == n + 1
            && (last_error matches Some(err) && err.kind() == kind && err.message_spec() == msg
        && err.is_retryable())) && (a matches SessionAction::RetryAfter { delay_ms } && delay_ms
            == retry_delay_ms(n))
    } else {
        (post.phase matches SessionPhase::Done { outcome } && (outcome
            matches FetchOutcome::Failure { error } && error.kind() == kind
            && error.message_spec() == msg && error.is_retryable())) && a == SessionAction::Halt
    }
}

/// The session was decided with the normalized success output of the
/// attempt's body.
pub open spec fn succeeded_with(pre: Session, x: Extraction, post: Session, a: SessionAction) -> bool {
    (post.phase matches SessionPhase::Done { outcome } && (outcome
        matches FetchOutcome::Success { output } && normalize_spec(pre.hostname@, x, Ok(output))))
        && a == SessionAction::Halt
}

/// The transition taken from the probing phase.
pub open spec fn probe_step(pre: Session, e: SessionEvent, post: Session, a: SessionAction) -> bool {
    match e {
        SessionEvent::ProbeDone { reachable } => if reachable {
            post.phase == (SessionPhase::Attempting { attempt: 0u32, last_error: None }) && a
                == SessionAction::SendRpc
        } else {
            (post.phase matches SessionPhase::Done { outcome } && (outcome
                matches FetchOutcome::Failure { error } && (error
                matches ConfigError::DeviceUnavailable(m) && m@ == pre.hostname@
                + " does not respond to ping"@))) && a == SessionAction::Halt
        },
        SessionEvent::ProbeError { message } => (post.phase matches SessionPhase::Done { outcome }
            && (outcome matches FetchOutcome::Failure { error } && (error
            matches ConfigError::IoError(m) && m@ == message@))) && a == SessionAction::Halt,
        _ => false,
    }
}

/// The transition taken while attempt `n` is in flight.
pub open spec fn attempt_step(
    pre: Session,
    n: u32,
    e: SessionEvent,
    post: Session,
    a: SessionAction,
) -> bool {
    match e {
        SessionEvent::RpcResponse { status, body } => if status == 200 {
            let x = extraction_of(body@);
            match x {
                Extraction::Items(_) => succeeded_with(pre, x, post, a),
                Extraction::Text(_) => succeeded_with(pre, x, post, a),
                _ => retried_with(
                    pre,
                    n,
                    post,
                    a,
                    ErrorKind::Parse,
                    parse_failure_message(pre.hostname@, x),
                ),
            }
        } else if status == 401 {
            (post.phase matches SessionPhase::Done { outcome } && (outcome
                matches FetchOutcome::Failure { error } && (error
                matches ConfigError::AuthenticationError(m) && m@ == "Authentication failed for "@
                + pre.hostname@))) && a == SessionAction::Halt
        } else {
            retried_with(
                pre,
                n,
                post,
                a,
                ErrorKind::Unknown,
                "HTTP error: "@ + decimal_of(status as nat),
            )
        },
        SessionEvent::RpcTransportError { message } => retried_with(
            pre,
            n,
            post,
            a,
            ErrorKind::Network,
            message@,
        ),
        _ => false,
    }
}

/// The full step relation of the session machine: what one event does to
/// the state, and which action the driver is told to take next.
pub open spec fn step_spec(pre: Session, e: SessionEvent, post: Session, a: SessionAction) -> bool {
    config_kept(pre, post) && match pre.phase {
        SessionPhase::Probing => probe_step(pre, e, post, a),
        SessionPhase::Attempting { attempt, .. } => attempt_step(pre, attempt, e, post, a),
        SessionPhase::Done { .. } => post.phase == pre.phase && a == SessionAction::Halt,
    }
}

impl Session {
    /// A session is well formed while its attempt counter stays under the
    /// attempt budget and any recorded failure is a retryable one.
    pub open spec fn wf(&self) -> bool {
        match self.phase {
            SessionPhase::Attempting { attempt, last_error } => attempt < MAX_RETRIES && (
            last_error matches Some(e) ==> e.is_retryable()),
            _ => true,
        }
    }

    /// Which events the driver may report in the current phase: probe
    /// verdicts while probing, RPC outcomes while an attempt is in flight.
    /// A decided session tolerates anything and stays decided.
    pub open spec fn accepts(&self, e: SessionEvent) -> bool {
        match self.phase {
            SessionPhase::Probing => e is ProbeDone || e is ProbeError,
            SessionPhase::Attempting { .. } => e is RpcResponse || e is RpcTransportError,
            SessionPhase::Done { .. } => true,
        }
    }

    /// Start a session for one device: the hostname is trimmed, and the
    /// first thing the driver must do is run the liveness probe.
    pub fn new(hostname: &str, sanitized: bool) -> (s: Session)
        ensures
            s.wf(),
            s.hostname@ == trimmed_of(hostname@),
            s.sanitized == sanitized,
            s.phase == SessionPhase::Probing,
    {
        Session { hostname: trim_string(hostname), sanitized, phase: SessionPhase::Probing }
    }

    /// The decided outcome, if any.
    pub fn outcome(&self) -> (r: Option<&FetchOutcome>)
        ensures
            match self.phase {
                SessionPhase::Done { outcome } => r matches Some(o) && *o == outcome,
                _ => r is None,
            },
    {
        match &self.phase {
            SessionPhase::Done { outcome } => Some(outcome),
            _ => None,
        }
    }

    /// Record a retryable failure seen while attempt `n` was in flight:
    /// schedule the next attempt after the backoff, or decide the session
    /// with this failure when the budget is spent.
    fn record_failure(&mut self, n: u32, err: ConfigError) -> (a: SessionAction)
        requires
            n < MAX_RETRIES,
            err.is_retryable(),
        ensures
            final(self).hostname@ == old(self).hostname@,
            final(self).sanitized == old(self).sanitized,
            final(self).wf(),
            retried_with(*old(self), n, *final(self), a, err.kind(), err.message_spec()),
    {
        if n + 1 < MAX_RETRIES {
            let factor = 1u64 << n;
            assert(1u64 << n <= 2u64) by (bit_vector)
                requires
                    n < 2u32,
            ;
            let delay = RETRY_BASE_DELAY_MS * factor;
            self.phase = SessionPhase::Attempting { attempt: n + 1, last_error: Some(err) };
            SessionAction::RetryAfter { delay_ms: delay }
        } else {
            self.phase = SessionPhase::Done { outcome: FetchOutcome::Failure { error: err } };
            SessionAction::Halt
        }
    }

    /// Feed one event to the session and learn what to do next. The whole
    /// decision logic of a device lives here: probe gating, success
    /// normalization, the authentication cut-off, retry classification and
    /// the exponential backoff.
    pub fn on_event(&mut self, e: SessionEvent) -> (a: SessionAction)
        requires
            old(self).wf(),
            old(self).accepts(e),
        ensures
            final(self).wf(),
            step_spec(*old(self), e, *final(self), a),
    {
        match &self.phase {
            SessionPhase::Probing => {
                match e {
                    SessionEvent::ProbeDone { reachable } => {
                        if reachable {
                            self.phase = SessionPhase::Attempting {
                                attempt: 0,
                                last_error: None,
                            };
                            SessionAction::SendRpc
                        } else {
                            let msg = String::from_str(self.hostname.as_str()).concat(
                                " does not respond to ping",
                            );
                            self.phase = SessionPhase::Done {
                                outcome: FetchOutcome::Failure {
                                    error: ConfigError::DeviceUnavailable(msg),
                                },
                            };
                            SessionAction::Halt
                        }
                    },
                    SessionEvent::ProbeError { message } => {
                        self.phase = SessionPhase::Done {
                            outcome: FetchOutcome::Failure {
                                error: ConfigError::IoError(message),
                            },
                        };
                        SessionAction::Halt
                    },
                    _ => {
                        proof {
                            assert(false);
                        }
                        SessionAction::Halt
                    },
                }
            },
            SessionPhase::Attempting { attempt, .. } => {
                let n = *attempt;
                match e {
                    SessionEvent::RpcResponse { status, body } => {
                        if status == 200 {
                            match normalize_body(self.hostname.as_str(), body.as_str()) {
                                Ok(output) => {
                                    self.phase = SessionPhase::Done {
                                        outcome: FetchOutcome::Success { output },
                                    };
                                    SessionAction::Halt
                                },
                                Err(err) => self.record_failure(n, err),
                            }
                        } else if status == 401 {
                            let msg = String::from_str("Authentication failed for ").concat(
                                self.hostname.as_str(),
                            );
                            self.phase = SessionPhase::Done {
                                outcome: FetchOutcome::Failure {
                                    error: ConfigError::AuthenticationError(msg),
                                },
                            };
                            SessionAction::Halt
                        } else {
                            let code = decimal_string(status as u64);
                            let msg = String::from_str("HTTP error: ").concat(code.as_str());
                            self.record_failure(n, ConfigError::UnknownError(msg))
                        }
                    },
                    SessionEvent::RpcTransportError { message } => {
                        self.record_failure(n, ConfigError::NetworkError(message))
                    },
                    _ => {
                        proof {
                            assert(false);
                        }
                        SessionAction::Halt
                    },
                }
            },
            SessionPhase::Done { .. } => SessionAction::Halt,
        }
    }
}

/// An RPC event that the controller classifies as retryable: a transport
/// failure, a non-200 non-401 status, or a 200 whose body does not
/// normalize.
pub open spec fn transient_rpc_event(e: SessionEvent) -> bool {
    match e {
        SessionEvent::RpcTransportError { .. } => true,
        SessionEvent::RpcResponse { status, body } => if status == 200 {
            !(extraction_of(body@) is Items) && !(extraction_of(body@) is Text)
        } else {
            status != 401
        },
        _ => false,
    }
}

/// Law: attempts only move forward. Any RPC outcome either decides the
/// session or moves it to the very next attempt index — an attempt is
/// never repeated and never skipped.
pub proof fn lemma_attempts_progress(pre: Session, e: SessionEvent, post: Session, a: SessionAction)
    requires
        pre.wf(),
        pre.phase is Attempting,
        pre.accepts(e),
        step_spec(pre, e, post, a),
    ensures
        post.phase is Done || (post.phase matches SessionPhase::Attempting { attempt: next, .. }
            && (pre.phase matches SessionPhase::Attempting { attempt: cur, .. } && next == cur
            + 1)),
{
}

/// Law: the attempt budget is hard. While the final attempt of the budget
/// is in flight, any RPC outcome decides the session — together with the
/// progress law, every device is decided after at most `MAX_RETRIES`
/// attempts.
pub proof fn lemma_final_attempt_decides(
    pre: Session,
    e: SessionEvent,
    post: Session,
    a: SessionAction,
)
    requires
        pre.wf(),
        pre.phase matches SessionPhase::Attempting { attempt, .. } && attempt == MAX_RETRIES - 1,
        pre.accepts(e),
        step_spec(pre, e, post, a),
    ensures
        post.phase is Done,
        a == SessionAction::Halt,
{
}

/// Law: a device whose probe fails is decided at once with
/// `DeviceUnavailable`. The driver is told to halt, so no RPC attempt is
/// ever issued for the device, and the outcome is a failure, so no output
/// file is written for it.
pub proof fn lemma_failed_probe_decides_device(pre: Session, post: Session, a: SessionAction)
    requires
        pre.phase is Probing,
        step_spec(pre, SessionEvent::ProbeDone { reachable: false }, post, a),
    ensures
        a == SessionAction::Halt,
        post.phase matches SessionPhase::Done { outcome } && (outcome
            matches FetchOutcome::Failure { error } && error.kind()
            == ErrorKind::DeviceUnavailable),
{
}

/// Law: a decided session stays decided. Whatever later event the driver
/// reports, the phase is unchanged and the driver is told to halt: no RPC
/// attempt and no write ever follows a terminal outcome.
pub proof fn lemma_done_is_terminal(pre: Session, e: SessionEvent, post: Session, a: SessionAction)
    requires
        pre.phase is Done,
        step_spec(pre, e, post, a),
    ensures
        post.phase == pre.phase,
        a == SessionAction::Halt,
{
}

/// Law: HTTP 401 on any attempt decides the session with
/// `AuthenticationError` after exactly that attempt, whatever the attempt
/// index and whatever failures were recorded before: no retry follows,
/// and the outcome is a failure, so no output file is written.
pub proof fn lemma_auth_failure_never_retried(
    pre: Session,
    body: String,
    post: Session,
    a: SessionAction,
)
    requires
        pre.phase is Attempting,
        step_spec(pre, SessionEvent::RpcResponse { status: 401u16, body }, post, a),
    ensures
        a == SessionAction::Halt,
        post.phase matches SessionPhase::Done { outcome } && (outcome
            matches FetchOutcome::Failure { error } && error.kind() == ErrorKind::Authentication),
{
}

/// Law: from a fresh attempt loop, two transient failures followed by a
/// usable success body give exactly the backoff delays 1000 ms and then
/// 2000 ms, and decide the session with the third attempt's normalized
/// payload — the output written for the device is the third attempt's.
pub proof fn lemma_two_transients_then_success(
    s0: Session,
    e1: SessionEvent,
    s1: Session,
    a1: SessionAction,
    e2: SessionEvent,
    s2: Session,
    a2: SessionAction,
    body: String,
    s3: Session,
    a3: SessionAction,
)
    requires
        s0.phase == (SessionPhase::Attempting { attempt: 0u32, last_error: None::<ConfigError> }),
        transient_rpc_event(e1),
        step_spec(s0, e1, s1, a1),
        transient_rpc_event(e2),
        step_spec(s1, e2, s2, a2),
        extraction_of(body@) is Items || extraction_of(body@) is Text,
        step_spec(s2, SessionEvent::RpcResponse { status: 200u16, body }, s3, a3),
    ensures
        a1 == (SessionAction::RetryAfter { delay_ms: 1000u64 }),
        a2 == (SessionAction::RetryAfter { delay_ms: 2000u64 }),
        a3 == SessionAction::Halt,
        s3.phase matches SessionPhase::Done { outcome } && (outcome
            matches FetchOutcome::Success { output } && normalize_spec(
            s0.hostname@,
            extraction_of(body@),
            Ok(output),
        )),
{
    assert(1u64 << 0u32 == 1u64) by (bit_vector);
    assert(1u64 << 1u32 == 2u64) by (bit_vector);
}

/// Law: three transient failures in a row exhaust the attempt budget. The
/// observed backoff delays are 1000 ms and then 2000 ms — 3 seconds in
/// all — the driver is then told to halt, and the session is decided with
/// the last recorded retryable failure: never an authentication error,
/// and never a success, so no output file is written.
pub proof fn lemma_three_transients_exhaust(
    s0: Session,
    e1: SessionEvent,
    s1: Session,
    a1: SessionAction,
    e2: SessionEvent,
    s2: Session,
    a2: SessionAction,
    e3: SessionEvent,
    s3: Session,
    a3: SessionAction,
)
    requires
        s0.phase == (SessionPhase::Attempting { attempt: 0u32, last_error: None::<ConfigError> }),
        transient_rpc_event(e1),
        step_spec(s0, e1, s1, a1),
        transient_rpc_event(e2),
        step_spec(s1, e2, s2, a2),
        transient_rpc_event(e3),
        step_spec(s2, e3, s3, a3),
    ensures
        a1 == (SessionAction::RetryAfter { delay_ms: 1000u64 }),
        a2 == (SessionAction::RetryAfter { delay_ms: 2000u64 }),
        a3 == SessionAction::Halt,
        s3.phase matches SessionPhase::Done { outcome } && (outcome
            matches FetchOutcome::Failure { error } && error.is_retryable() && error.kind()
            != ErrorKind::Authentication),
{
    assert(1u64 << 0u32 == 1u64) by (bit_vector);
    assert(1u64 << 1u32 == 2u64) by (bit_vector);
}

} // verus!
