//! Reachability: what the counts of a probe run mean for bring-up.

use vstd::prelude::*;

verus! {

/// What a run of probes against one address measured.
#[derive(Clone, Copy, Debug, PartialEq, Eq, Structural)]
pub struct ProbeSummary {
    /// Probes sent.
    pub transmitted: u32,
    /// Probes answered.
    pub received: u32,
}

/// Reachability is all-or-nothing: at least one probe was sent and every probe
/// sent was answered.
pub open spec fn all_answered(summary: ProbeSummary) -> bool {
    summary.transmitted > 0 && summary.received == summary.transmitted
}

impl ProbeSummary {
    /// Whether this run proves the destination reachable.
    pub fn proves_reachable(&self) -> (ok: bool)
        ensures
            ok == all_answered(*self),
    {
        self.transmitted > 0 && self.received == self.transmitted
    }
}

/// A single unanswered probe is a failure, however many were sent.
pub proof fn lemma_one_lost_probe_is_failure(transmitted: u32)
    requires
        transmitted >= 1,
    ensures
        !all_answered(ProbeSummary { transmitted, received: (transmitted - 1) as u32 }),
{
}

} // verus!
