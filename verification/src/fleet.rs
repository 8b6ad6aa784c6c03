//! Fleet-level helpers: the per-failure report line and the aggregation of
//! per-device outcomes. One device's failure never affects another: the
//! dispatcher only collects and reports.

use vstd::prelude::*;
use vstd::string::StringExecFns;
use crate::errors::ConfigError;
use crate::session::FetchOutcome;

verus! {

/// The success line printed for one device.
pub fn success_line(hostname: &str) -> (r: String)
    ensures
        r@ == "Successfully downloaded config from "@ + hostname@,
{
    String::from_str("Successfully downloaded config from ").concat(hostname)
}

/// The error-channel line reported for one failed device: the hostname and
/// the rendered error.
pub fn failure_line(hostname: &str, error: &ConfigError) -> (r: String)
    ensures
        r@ == "Failed to download config from "@ + hostname@ + ": "@ + error.prefix_spec()
            + error.message_spec(),
{
    let rendered = error.describe();
    String::from_str("Failed to download config from ").concat(hostname).concat(": ").concat(
        rendered.as_str(),
    )
}

/// How many of the outcomes are successes.
pub open spec fn success_count(outcomes: Seq<FetchOutcome>) -> nat
    decreases outcomes.len(),
{
    if outcomes.len() == 0 {
        0
    } else {
        success_count(outcomes.drop_last()) + if outcomes.last() is Success {
            1nat
        } else {
            0nat
        }
    }
}

/// Count a run's outcomes: how many devices succeeded and how many
/// failed. Every device is accounted for exactly once.
pub fn count_outcomes(outcomes: &Vec<FetchOutcome>) -> (counts: (usize, usize))
    ensures
        counts.0 == success_count(outcomes@),
        counts.0 + counts.1 == outcomes@.len(),
{
    let mut successes: usize = 0;
    let mut i: usize = 0;
    while i < outcomes.len()
        invariant
            i <= outcomes@.len(),
            successes == success_count(outcomes@.take(i as int)),
            successes <= i,
        decreases outcomes@.len() - i,
    {
        proof {
            assert(outcomes@.take(i + 1).drop_last() =~= outcomes@.take(i as int));
            assert(outcomes@.take(i + 1).last() == outcomes@[i as int]);
        }
        match &outcomes[i] {
            FetchOutcome::Success { .. } => {
                successes = successes + 1;
            },
            FetchOutcome::Failure { .. } => {
            },
        }
        i = i + 1;
    }
    proof {
        assert(outcomes@.take(outcomes@.len() as int) =~= outcomes@);
    }
    (successes, outcomes.len() - successes)
}

} // verus!
