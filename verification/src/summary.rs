//! Aggregation of one run: the joined outcomes are counted and kept, and the
//! failing ones can be drawn off for the notifier.

use vstd::prelude::*;
use crate::outcome::CheckResult;

verus! {

/// The aggregated result of one run: exact counts over the joined outcomes,
/// the outcomes themselves in join order, and the wall-clock time of the
/// aggregation.
pub struct RunSummary {
    pub timestamp: String,
    pub total_checked: u64,
    pub successful: u64,
    pub failed: u64,
    pub results: Vec<CheckResult>,
}

/// How many outcomes of a sequence are successes.
pub open spec fn count_successful(s: Seq<CheckResult>) -> nat
    decreases s.len(),
{
    if s.len() == 0 {
        0
    } else {
        count_successful(s.drop_last()) + (if s.last().success {
            1nat
        } else {
            0nat
        })
    }
}

/// How many outcomes of a sequence are failures.
pub open spec fn count_failed(s: Seq<CheckResult>) -> nat
    decreases s.len(),
{
    if s.len() == 0 {
        0
    } else {
        count_failed(s.drop_last()) + (if s.last().success {
            0nat
        } else {
            1nat
        })
    }
}

/// Every outcome is either a success or a failure, so the two counts
/// partition the sequence: they always sum to its length.
pub proof fn lemma_counts_partition(s: Seq<CheckResult>)
    ensures
        count_successful(s) + count_failed(s) == s.len(),
    decreases s.len(),
{
    if s.len() > 0 {
        lemma_counts_partition(s.drop_last());
    }
}

/// What it means for a summary to describe a sequence of outcomes: the
/// outcomes are kept whole and in order, and every count is the exact
/// cardinality of its part of the partition. The timestamp is not
/// constrained: it records when the aggregation ran.
pub open spec fn is_summary_of(s: RunSummary, outcomes: Seq<CheckResult>) -> bool {
    &&& s.results@ == outcomes
    &&& s.total_checked == outcomes.len()
    &&& s.successful == count_successful(outcomes)
    &&& s.failed == count_failed(outcomes)
}

/// Aggregation is a pure function of the outcomes: two summaries of the same
/// outcome sequence agree in every field but the timestamp.
pub proof fn lemma_summarize_idempotent(a: RunSummary, b: RunSummary, outcomes: Seq<CheckResult>)
    requires
        is_summary_of(a, outcomes),
        is_summary_of(b, outcomes),
    ensures
        a.total_checked == b.total_checked,
        a.successful == b.successful,
        a.failed == b.failed,
        a.results@ == b.results@,
{
}

/// Builds the summary of a run from its joined outcomes, stamped with the
/// given time.
pub fn summarize_at(results: Vec<CheckResult>, timestamp: String) -> (s: RunSummary)
    ensures
        is_summary_of(s, results@),
        s.timestamp == timestamp,
        s.total_checked == s.successful + s.failed,
{
    let total: u64 = results.len() as u64;
    let mut successful: u64 = 0;
    let mut i: usize = 0;
    while i < results.len()
        invariant
            i <= results@.len(),
            results@.len() <= u64::MAX,
            successful == count_successful(results@.take(i as int)),
            successful <= i,
        decreases results@.len() - i,
    {
        proof {
            assert(results@.take(i + 1).drop_last() =~= results@.take(i as int));
        }
        if results[i].success {
            successful = successful + 1;
        }
        i = i + 1;
    }
    proof {
        assert(results@.take(results@.len() as int) =~= results@);
        lemma_counts_partition(results@);
    }
    let failed: u64 = total - successful;
    RunSummary { timestamp, total_checked: total, successful, failed, results }
}

/// Builds the summary of a run, stamped with the wall-clock time of the
/// aggregation itself.
pub fn summarize(results: Vec<CheckResult>) -> (s: RunSummary)
    ensures
        is_summary_of(s, results@),
        s.total_checked == s.successful + s.failed,
{
    let timestamp = crate::clock::now_rfc3339();
    summarize_at(results, timestamp)
}

/// The failing outcomes of a run, in the order they were joined.
pub fn failures_of(results: &Vec<CheckResult>) -> (f: Vec<CheckResult>)
    ensures
        f@ == results@.filter(|r: CheckResult| !r.success),
{
    let mut f: Vec<CheckResult> = Vec::new();
    let mut i: usize = 0;
    while i < results.len()
        invariant
            i <= results@.len(),
            f@ =~= results@.take(i as int).filter(|r: CheckResult| !r.success),
        decreases results@.len() - i,
    {
        proof {
            reveal(Seq::filter);
            assert(results@.take(i + 1).drop_last() =~= results@.take(i as int));
        }
        if !results[i].success {
            f.push(results[i].clone());
        }
        i = i + 1;
    }
    proof {
        assert(results@.take(results@.len() as int) =~= results@);
    }
    f
}

} // verus!
