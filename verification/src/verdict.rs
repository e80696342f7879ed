//! The verdict of a run and the rule that derives it from two probe outcomes.

use vstd::prelude::*;

verus! {

/// Final result of a run.
#[derive(Clone, Copy, Debug, PartialEq, Eq, Structural)]
pub enum Verdict {
    /// The path enforces validation; reported as `OK`.
    Pass,
    /// Any other combination of outcomes; reported as `NOK`.
    Fail,
}

impl Verdict {
    /// The word a verdict is reported with.
    pub open spec fn spec_label(self) -> Seq<char> {
        match self {
            Verdict::Pass => "OK"@,
            Verdict::Fail => "NOK"@,
        }
    }

    /// The text of the one line a run reports: `OK` or `NOK`.
    pub fn label(&self) -> (text: String)
        ensures
            text@ == self.spec_label(),
    {
        match self {
            Verdict::Pass => "OK".to_owned(),
            Verdict::Fail => "NOK".to_owned(),
        }
    }
}

/// The truth table of the combiner, row by row.
pub open spec fn spec_combine(valid_succeeded: bool, invalid_succeeded: bool) -> Verdict {
    match (valid_succeeded, invalid_succeeded) {
        (true, false) => Verdict::Pass,
        (true, true) => Verdict::Fail,
        (false, false) => Verdict::Fail,
        (false, true) => Verdict::Fail,
    }
}

/// Combines the outcome of the probe that should be accepted with the outcome
/// of the probe that should be dropped.
pub fn combine(valid_succeeded: bool, invalid_succeeded: bool) -> (verdict: Verdict)
    ensures
        verdict == spec_combine(valid_succeeded, invalid_succeeded),
{
    if valid_succeeded && !invalid_succeeded {
        Verdict::Pass
    } else {
        Verdict::Fail
    }
}

/// The verdict is `Pass` exactly when the accepted path answered and the
/// blackholed one did not.
pub proof fn lemma_pass_iff_only_valid_succeeded(valid_succeeded: bool, invalid_succeeded: bool)
    ensures
        spec_combine(valid_succeeded, invalid_succeeded) == Verdict::Pass <==> (valid_succeeded
            && !invalid_succeeded),
{
}

} // verus!
