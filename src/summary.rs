//! The result of a whole batch of pairs.
use vstd::prelude::*;
use crate::layout::Stage;
use crate::pipeline::{outcome_spec, passes, PairEnv, PairOutcome};

verus! {

/// How many pairs ended each way.
#[derive(PartialEq, Eq, Structural, Clone, Copy, Debug)]
pub struct RunSummary {
    pub done: usize,
    pub skipped: usize,
    pub failed: usize,
}

pub open spec fn count_done(os: Seq<PairOutcome>) -> nat
    decreases os.len(),
{
    if os.len() == 0 {
        0
    } else {
        count_done(os.drop_last()) + if os.last() == PairOutcome::Done { 1nat } else { 0nat }
    }
}

pub open spec fn count_skipped(os: Seq<PairOutcome>) -> nat
    decreases os.len(),
{
    if os.len() == 0 {
        0
    } else {
        count_skipped(os.drop_last()) + if os.last() == PairOutcome::Skipped { 1nat } else { 0nat }
    }
}

pub open spec fn count_failed(os: Seq<PairOutcome>) -> nat
    decreases os.len(),
{
    if os.len() == 0 {
        0
    } else {
        count_failed(os.drop_last()) + if os.last() is Aborted { 1nat } else { 0nat }
    }
}

proof fn lemma_counts_bounded(os: Seq<PairOutcome>)
    ensures
        count_done(os) + count_skipped(os) + count_failed(os) == os.len(),
    decreases os.len(),
{
    if os.len() > 0 {
        lemma_counts_bounded(os.drop_last());
    }
}

/// Counts the pairs that finished, were skipped and failed.
pub fn summarize(outcomes: &Vec<PairOutcome>) -> (r: RunSummary)
    ensures
        r.done == count_done(outcomes@),
        r.skipped == count_skipped(outcomes@),
        r.failed == count_failed(outcomes@),
{
    let mut r = RunSummary { done: 0, skipped: 0, failed: 0 };
    let mut i: usize = 0;
    while i < outcomes.len()
        invariant
            i <= outcomes@.len(),
            r.done == count_done(outcomes@.take(i as int)),
            r.skipped == count_skipped(outcomes@.take(i as int)),
            r.failed == count_failed(outcomes@.take(i as int)),
        decreases outcomes@.len() - i,
    {
        assert(outcomes@.take(i + 1).drop_last() =~= outcomes@.take(i as int));
        proof {
            lemma_counts_bounded(outcomes@.take(i as int));
        }
        match outcomes[i] {
            PairOutcome::Done => r.done = r.done + 1,
            PairOutcome::Skipped => r.skipped = r.skipped + 1,
            PairOutcome::Aborted(_) => r.failed = r.failed + 1,
        }
        i = i + 1;
    }
    assert(outcomes@.take(i as int) =~= outcomes@);
    r
}

/// The outcomes of a batch: each pair's own, from its own endpoints and
/// answers alone.
pub open spec fn batch_outcomes(pairs: Seq<(Seq<char>, Seq<char>)>, envs: Seq<PairEnv>) -> Seq<PairOutcome> {
    Seq::new(pairs.len(), |i: int| outcome_spec(pairs[i].0, pairs[i].1, envs[i]))
}

/// Every stage of the pair is complete or succeeds.
pub open spec fn all_pass(env: PairEnv) -> bool {
    passes(env, Stage::Control) && passes(env, Stage::Iperf) && passes(env, Stage::Bundler)
}

/// A pair's outcome does not depend on what happens to the other pairs.
pub proof fn lemma_outcome_isolated(
    pairs: Seq<(Seq<char>, Seq<char>)>,
    envs: Seq<PairEnv>,
    others: Seq<PairEnv>,
    i: int,
)
    requires
        0 <= i < pairs.len(),
        envs.len() == pairs.len(),
        others.len() == pairs.len(),
        envs[i] == others[i],
    ensures
        batch_outcomes(pairs, envs)[i] == batch_outcomes(pairs, others)[i],
{
}

/// Three pairs of distinct ends where only the second has a stage that
/// fails: the first and third finish, and the batch counts one failure.
pub proof fn lemma_partial_failure_isolation(pairs: Seq<(Seq<char>, Seq<char>)>, envs: Seq<PairEnv>)
    requires
        pairs.len() == 3,
        envs.len() == 3,
        forall|k: int| 0 <= k < 3 ==> pairs[k].0 != pairs[k].1,
        all_pass(envs[0]),
        !all_pass(envs[1]),
        all_pass(envs[2]),
    ensures
        batch_outcomes(pairs, envs)[0] == PairOutcome::Done,
        batch_outcomes(pairs, envs)[1] is Aborted,
        batch_outcomes(pairs, envs)[2] == PairOutcome::Done,
        count_failed(batch_outcomes(pairs, envs)) == 1,
        count_done(batch_outcomes(pairs, envs)) == 2,
{
    let os = batch_outcomes(pairs, envs);
    let o2 = os.drop_last();
    let o1 = o2.drop_last();
    let o0 = o1.drop_last();
    assert(o0 =~= Seq::<PairOutcome>::empty());
    assert(o1.last() == os[0]);
    assert(o2.last() == os[1]);
    assert(os.last() == os[2]);
    assert(count_failed(o0) == 0 && count_done(o0) == 0);
    assert(count_failed(o1) == 0 && count_done(o1) == 1);
    assert(count_failed(o2) == 1 && count_done(o2) == 1);
}

} // verus!
