//! Counting classified trials.
use vstd::prelude::*;
use crate::outcome::{Outcome, TrialResult};

verus! {

/// How many trials ended in each of the four outcomes.
#[derive(Clone, Copy, Debug, PartialEq, Eq, Structural)]
pub struct AggregateReport {
    pub white_wins: usize,
    pub black_wins: usize,
    pub draws: usize,
    pub stalemates: usize,
}

/// The number of results in `s` with outcome `o`.
pub open spec fn count_outcome(s: Seq<TrialResult>, o: Outcome) -> nat
    decreases s.len(),
{
    if s.len() == 0 {
        0
    } else {
        count_outcome(s.drop_last(), o) + if s.last().outcome == o { 1nat } else { 0nat }
    }
}

impl AggregateReport {
    /// The counter kept for outcome `o`.
    pub open spec fn count(self, o: Outcome) -> nat {
        match o {
            Outcome::WhiteWin => self.white_wins as nat,
            Outcome::BlackWin => self.black_wins as nat,
            Outcome::Draw => self.draws as nat,
            Outcome::Stalemate => self.stalemates as nat,
        }
    }

    /// The number of trials the report accounts for.
    pub open spec fn total(self) -> nat {
        (self.white_wins + self.black_wins + self.draws + self.stalemates) as nat
    }

    /// A report of no trials.
    pub fn new() -> (r: Self)
        ensures
            forall|o: Outcome| #[trigger] r.count(o) == 0,
            r.total() == 0,
    {
        AggregateReport { white_wins: 0, black_wins: 0, draws: 0, stalemates: 0 }
    }

    /// Counts one more trial with outcome `o`.
    pub fn record(&mut self, o: Outcome)
        requires
            old(self).total() < usize::MAX,
        ensures
            final(self).count(o) == old(self).count(o) + 1,
            forall|p: Outcome| p != o ==> #[trigger] final(self).count(p) == old(self).count(p),
            final(self).total() == old(self).total() + 1,
    {
        match o {
            Outcome::WhiteWin => self.white_wins = self.white_wins + 1,
            Outcome::BlackWin => self.black_wins = self.black_wins + 1,
            Outcome::Draw => self.draws = self.draws + 1,
            Outcome::Stalemate => self.stalemates = self.stalemates + 1,
        }
    }

    /// Adds up two reports, such as the private counters of two workers.
    pub fn merge(&self, other: &AggregateReport) -> (r: AggregateReport)
        requires
            self.total() + other.total() <= usize::MAX,
        ensures
            forall|o: Outcome| #[trigger] r.count(o) == self.count(o) + other.count(o),
            r.total() == self.total() + other.total(),
    {
        AggregateReport {
            white_wins: self.white_wins + other.white_wins,
            black_wins: self.black_wins + other.black_wins,
            draws: self.draws + other.draws,
            stalemates: self.stalemates + other.stalemates,
        }
    }
}

/// Counts the outcomes of `results`.
pub fn aggregate(results: &Vec<TrialResult>) -> (r: AggregateReport)
    ensures
        forall|o: Outcome| #[trigger] r.count(o) == count_outcome(results@, o),
        r.total() == results@.len(),
{
    let mut r = AggregateReport::new();
    let n = results.len();
    let mut i: usize = 0;
    while i < n
        invariant
            n == results@.len(),
            i <= n,
            forall|o: Outcome| #[trigger] r.count(o) == count_outcome(results@.subrange(0, i as int), o),
            r.total() == i,
        decreases n - i,
    {
        let ghost before = results@.subrange(0, i as int);
        let ghost after = results@.subrange(0, i + 1);
        assert(after.drop_last() == before);
        r.record(results[i].outcome);
        i = i + 1;
    }
    assert(results@.subrange(0, n as int) == results@);
    r
}

/// Every result falls under exactly one outcome: the four counts of a
/// sequence of results add up to its length.
pub proof fn lemma_counts_sum(s: Seq<TrialResult>)
    ensures
        count_outcome(s, Outcome::WhiteWin) + count_outcome(s, Outcome::BlackWin)
            + count_outcome(s, Outcome::Draw) + count_outcome(s, Outcome::Stalemate) == s.len(),
    decreases s.len(),
{
    if s.len() > 0 {
        lemma_counts_sum(s.drop_last());
    }
}

/// Counting is additive over a split of the results: counting two parts
/// separately and adding the counts gives the count of the whole.
pub proof fn lemma_count_split(a: Seq<TrialResult>, b: Seq<TrialResult>, o: Outcome)
    ensures
        count_outcome(a + b, o) == count_outcome(a, o) + count_outcome(b, o),
    decreases b.len(),
{
    if b.len() == 0 {
        assert(a + b == a);
    } else {
        lemma_count_split(a, b.drop_last(), o);
        assert((a + b).drop_last() == a + b.drop_last());
    }
}

/// Counting does not depend on the order in which two parts of the results
/// were produced.
pub proof fn lemma_count_swap(a: Seq<TrialResult>, b: Seq<TrialResult>, o: Outcome)
    ensures
        count_outcome(a + b, o) == count_outcome(b + a, o),
{
    lemma_count_split(a, b, o);
    lemma_count_split(b, a, o);
}

/// Splitting the results between two workers, counting each share
/// privately and merging the two reports gives the same report, in either
/// order of merging, as counting all results at once.
pub proof fn lemma_merge_matches_whole(
    a: Seq<TrialResult>,
    b: Seq<TrialResult>,
    ra: AggregateReport,
    rb: AggregateReport,
    merged: AggregateReport,
)
    requires
        forall|o: Outcome| #[trigger] ra.count(o) == count_outcome(a, o),
        forall|o: Outcome| #[trigger] rb.count(o) == count_outcome(b, o),
        forall|o: Outcome| #[trigger] merged.count(o) == ra.count(o) + rb.count(o),
    ensures
        forall|o: Outcome| #[trigger] merged.count(o) == count_outcome(a + b, o),
        forall|o: Outcome| #[trigger] merged.count(o) == count_outcome(b + a, o),
        merged.total() == a.len() + b.len(),
{
    assert forall|o: Outcome| #[trigger] merged.count(o) == count_outcome(a + b, o) && merged.count(o)
        == count_outcome(b + a, o) by {
        lemma_count_split(a, b, o);
        lemma_count_swap(a, b, o);
    }
    lemma_counts_sum(a + b);
    assert(merged.count(Outcome::WhiteWin) == count_outcome(a + b, Outcome::WhiteWin));
    assert(merged.count(Outcome::BlackWin) == count_outcome(a + b, Outcome::BlackWin));
    assert(merged.count(Outcome::Draw) == count_outcome(a + b, Outcome::Draw));
    assert(merged.count(Outcome::Stalemate) == count_outcome(a + b, Outcome::Stalemate));
}

/// The counts of outcome `o` over the shares of several workers, added up.
pub open spec fn count_parts(parts: Seq<Seq<TrialResult>>, o: Outcome) -> nat
    decreases parts.len(),
{
    if parts.len() == 0 {
        0
    } else {
        count_outcome(parts.first(), o) + count_parts(parts.drop_first(), o)
    }
}

/// However the results are split between any number of workers, adding up
/// the counts of each worker's share gives the count of all the results.
pub proof fn lemma_count_flatten(parts: Seq<Seq<TrialResult>>, o: Outcome)
    ensures
        count_outcome(parts.flatten(), o) == count_parts(parts, o),
    decreases parts.len(),
{
    if parts.len() > 0 {
        lemma_count_flatten(parts.drop_first(), o);
        lemma_count_split(parts.first(), parts.drop_first().flatten(), o);
    }
}

/// Taking one result out of a sequence lowers its count by one when the
/// result has outcome `o`, and leaves it otherwise.
proof fn lemma_count_remove(s: Seq<TrialResult>, j: int, o: Outcome)
    requires
        0 <= j < s.len(),
    ensures
        count_outcome(s, o) == count_outcome(s.remove(j), o) + if s[j].outcome == o { 1nat } else { 0nat },
{
    let front = s.subrange(0, j);
    let one = seq![s[j]];
    let back = s.subrange(j + 1, s.len() as int);
    assert(s =~= front + (one + back));
    assert(s.remove(j) =~= front + back);
    lemma_count_split(front, one + back, o);
    lemma_count_split(one, back, o);
    lemma_count_split(front, back, o);
    assert(one.drop_last() =~= Seq::<TrialResult>::empty());
    assert(one.len() == 1 && one.last() == s[j]);
    assert(count_outcome(one.drop_last(), o) == 0);
    assert(count_outcome(one, o) == if s[j].outcome == o { 1nat } else { 0nat });
}

/// The counts do not depend on the order of the results: any two sequences
/// holding the same results, each as often, whatever the workers and the
/// order in which they finished, give the same counts.
pub proof fn lemma_count_permutation(s1: Seq<TrialResult>, s2: Seq<TrialResult>, o: Outcome)
    requires
        s1.to_multiset() == s2.to_multiset(),
    ensures
        count_outcome(s1, o) == count_outcome(s2, o),
    decreases s1.len(),
{
    broadcast use vstd::seq_lib::group_to_multiset_ensures;

    if s1.len() == 0 {
        assert(s2.to_multiset().len() == 0);
        assert(s2.len() == 0);
    } else {
        let x = s1.last();
        let rest = s1.drop_last();
        assert(s1 == rest.push(x));
        assert(s1.to_multiset() == rest.to_multiset().insert(x));
        assert(s2.to_multiset().count(x) > 0);
        assert(s2.contains(x));
        let j = choose|j: int| 0 <= j < s2.len() && s2[j] == x;
        assert(s2.remove(j).to_multiset() == s2.to_multiset().remove(x));
        assert(rest.to_multiset() =~= s2.remove(j).to_multiset());
        lemma_count_permutation(rest, s2.remove(j), o);
        lemma_count_remove(s2, j, o);
    }
}

} // verus!
