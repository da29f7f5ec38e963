//! Summary of one deletion batch. Every selected entry is attempted
//! independently: a failure is recorded and the batch goes on, so the
//! outcomes always cover the whole work list.
use vstd::prelude::*;

verus! {

/// Outcome totals of one deletion batch.
pub struct DeleteReport {
    /// How many removals were attempted: one per selected entry.
    pub attempted: usize,
    /// How many attempts succeeded.
    pub deleted: usize,
    /// How many attempts failed; the failed entries were recorded, not retried.
    pub failed: usize,
}

/// How many flags in the sequence are true.
pub open spec fn count_true(s: Seq<bool>) -> int
    decreases s.len(),
{
    if s.len() == 0 {
        0
    } else {
        count_true(s.drop_last()) + (if s.last() {
            1int
        } else {
            0int
        })
    }
}

/// The count of true flags lies between zero and the length.
pub proof fn lemma_count_true_bounds(s: Seq<bool>)
    ensures
        0 <= count_true(s) <= s.len(),
    decreases s.len(),
{
    if s.len() > 0 {
        lemma_count_true_bounds(s.drop_last());
    }
}

/// Folds the per-entry outcomes of a deletion batch (true = removed) into the
/// final summary. Every outcome is counted: a failure never hides the
/// attempts that follow it.
pub fn summarize_outcomes(outcomes: &Vec<bool>) -> (r: DeleteReport)
    ensures
        r.attempted == outcomes@.len(),
        r.deleted == count_true(outcomes@),
        r.failed == outcomes@.len() - count_true(outcomes@),
{
    let mut deleted: usize = 0;
    let mut i: usize = 0;
    proof {
        assert(count_true(outcomes@.subrange(0, 0)) == 0);
    }
    while i < outcomes.len()
        invariant
            0 <= i <= outcomes@.len(),
            deleted == count_true(outcomes@.subrange(0, i as int)),
            0 <= deleted <= i,
        decreases outcomes@.len() - i,
    {
        proof {
            assert(outcomes@.subrange(0, i + 1).drop_last() =~= outcomes@.subrange(0, i as int));
            assert(outcomes@.subrange(0, i + 1).last() == outcomes@[i as int]);
        }
        if outcomes[i] {
            deleted = deleted + 1;
        }
        i = i + 1;
    }
    proof {
        assert(outcomes@.subrange(0, outcomes@.len() as int) =~= outcomes@);
        lemma_count_true_bounds(outcomes@);
    }
    DeleteReport { attempted: outcomes.len(), deleted, failed: outcomes.len() - deleted }
}

} // verus!
