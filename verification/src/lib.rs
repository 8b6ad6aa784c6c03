//! Verified core of a fleet configuration grabber.
//!
//! The library holds the decision logic of a tool that bulk-retrieves the
//! running configuration from a fleet of network devices over an HTTPS
//! JSON-RPC endpoint: the per-device session state machine (liveness gate,
//! retry with exponential backoff, authentication cut-off), the response
//! normalizer, the request and output builders, and the concurrency slot
//! gate. All I/O (the probe, the HTTP transport, sleeping, file writes) is
//! performed by an unverified driver that feeds events to the state machine.

use vstd::prelude::*;

pub mod errors;
pub mod fleet;
pub mod gate;
pub mod normalize;
pub mod session;
pub mod text;
pub mod wire;

verus! {

/// The fixed number of RPC attempts granted to one device.
pub const MAX_RETRIES: u32 = 3;

/// Base delay of the exponential backoff, in milliseconds.
pub const RETRY_BASE_DELAY_MS: u64 = 1000;

/// Timeout handed to the liveness probe, in milliseconds.
pub const PING_TIMEOUT_MS: u64 = 2000;

} // verus!
