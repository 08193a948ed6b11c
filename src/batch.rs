//! A batch of independent trials, run in parallel and counted.
use vstd::prelude::*;
use rayon::iter::{IntoParallelIterator, ParallelIterator};
use crate::outcome::{Outcome, TrialResult};
use crate::report::{aggregate, count_outcome, AggregateReport};
use crate::trial::{is_played_trial, run_trial};

verus! {

/// Relies on rayon's indexed parallel iterators: `(0..n).into_par_iter().map(f)
/// .collect()` calls `f` once per index on the worker pool and collects the
/// `n` results in index order. Each trial owns its game and its generator,
/// so no two trials share mutable state.
#[verifier::external_body]
fn run_trials_parallel(n: usize) -> (v: Vec<TrialResult>)
    ensures
        v@.len() == n,
        forall|i: int| 0 <= i < n ==> is_played_trial(#[trigger] v@[i]),
{
    (0..n).into_par_iter().map(|_| run_trial()).collect()
}

/// Runs `n` independent trials in parallel and counts their outcomes: the
/// report counts the outcomes of `n` played-out games, so its four counts add
/// up to `n`.
pub fn run_batch(n: usize) -> (r: AggregateReport)
    ensures
        r.total() == n,
        exists|v: Seq<TrialResult>|
            v.len() == n && (forall|i: int| 0 <= i < v.len() ==> is_played_trial(#[trigger] v[i]))
                && forall|o: Outcome| #[trigger] r.count(o) == count_outcome(v, o),
{
    let results = run_trials_parallel(n);
    let r = aggregate(&results);
    assert(forall|i: int| 0 <= i < results@.len() ==> is_played_trial(#[trigger] results@[i]));
    r
}

} // verus!
