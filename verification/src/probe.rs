//! What a probe brought back, and how a run judges it.

use crate::verdict::{combine, spec_combine, Verdict};
use vstd::prelude::*;

verus! {

/// The payload the validation service answers with.
#[derive(Debug)]
pub struct IsBgpSafeYet {
    /// How the service rates the route the request came in on.
    pub status: String,
    /// Number of the autonomous system the request came from.
    pub asn: u32,
    /// Name of that autonomous system.
    pub name: String,
    /// Whether the service saw the route as one that should have been dropped.
    pub blackholed: bool,
}

/// Why a probe brought back no payload. The kinds matter for diagnostics
/// only: each of them makes the probe a failed one.
#[derive(Clone, Copy, Debug, PartialEq, Eq, Structural)]
pub enum ProbeError {
    /// No response arrived: DNS failure, connection refused, TLS failure.
    Transport,
    /// The timeout elapsed first.
    Timeout,
    /// A response arrived, but its body is not JSON of the expected schema.
    Decode,
}

/// The kind of a failure, from what the transport tells about it. A timeout
/// counts as one wherever it struck; a body that did not decode comes next.
pub open spec fn spec_failure_kind(timed_out: bool, undecodable: bool) -> ProbeError {
    if timed_out {
        ProbeError::Timeout
    } else if undecodable {
        ProbeError::Decode
    } else {
        ProbeError::Transport
    }
}

/// Names the kind of a failed probe.
pub fn failure_kind(timed_out: bool, undecodable: bool) -> (kind: ProbeError)
    ensures
        kind == spec_failure_kind(timed_out, undecodable),
{
    if timed_out {
        ProbeError::Timeout
    } else if undecodable {
        ProbeError::Decode
    } else {
        ProbeError::Transport
    }
}

/// A probe succeeded exactly when it brought back a decoded payload.
pub open spec fn spec_succeeded(reply: Result<IsBgpSafeYet, ProbeError>) -> bool {
    reply is Ok
}

/// Classifies the reply of one probe as succeeded (`true`) or failed.
pub fn check_success(reply: &Result<IsBgpSafeYet, ProbeError>) -> (succeeded: bool)
    ensures
        succeeded == spec_succeeded(*reply),
{
    match reply {
        Ok(_) => true,
        Err(_) => false,
    }
}

/// The verdict of a run, once both probes have come back. Which of the two
/// came back first plays no part.
pub fn judge(
    valid_reply: &Result<IsBgpSafeYet, ProbeError>,
    invalid_reply: &Result<IsBgpSafeYet, ProbeError>,
) -> (verdict: Verdict)
    ensures
        verdict == spec_combine(spec_succeeded(*valid_reply), spec_succeeded(*invalid_reply)),
{
    combine(check_success(valid_reply), check_success(invalid_reply))
}

/// Whatever kept the two probes from succeeding, the verdict is the same:
/// the three kinds of failure cannot be told apart by it.
pub proof fn lemma_failure_kinds_indistinguishable(
    other: Result<IsBgpSafeYet, ProbeError>,
    first: ProbeError,
    second: ProbeError,
)
    ensures
        spec_combine(spec_succeeded(Err(first)), spec_succeeded(other)) == spec_combine(
            spec_succeeded(Err(second)),
            spec_succeeded(other),
        ),
        spec_combine(spec_succeeded(other), spec_succeeded(Err(first))) == spec_combine(
            spec_succeeded(other),
            spec_succeeded(Err(second)),
        ),
{
}

} // verus!
