//! The two confidential circuits, modelled on their plaintext state.
//!
//! Both circuits execute inside the confidential boundary: the ledger-side
//! program only ever sees their inputs and outputs as ciphertext.  What is
//! verified here is the plaintext transformation each circuit applies, which
//! is deterministic in its inputs.

use vstd::prelude::*;

use crate::error::ErrorCode;

verus! {

/// Number of vote buckets: one for each vote value in -3 ..= +3.
pub const NUM_BUCKETS: usize = 7;

/// The plaintext tally of one poll: seven bucket counters, one per vote
/// value.  This value exists only inside the confidential boundary and is
/// never persisted in the clear.
#[derive(Clone, Copy, Debug, PartialEq, Eq, Structural)]
pub struct VoteStats {
    pub minus_three: u64,
    pub minus_two: u64,
    pub minus_one: u64,
    pub zero: u64,
    pub one: u64,
    pub two: u64,
    pub three: u64,
}

/// Sum of the first `n` entries of `s`.
pub open spec fn sum_prefix(s: Seq<u64>, n: int) -> int
    decreases n,
{
    if n <= 0 {
        0
    } else {
        sum_prefix(s, n - 1) + s[n - 1]
    }
}

impl VoteStats {
    /// The bucket counters in fixed scan order, most negative value first.
    pub open spec fn counts(self) -> Seq<u64> {
        seq![
            self.minus_three,
            self.minus_two,
            self.minus_one,
            self.zero,
            self.one,
            self.two,
            self.three,
        ]
    }

    /// Total number of votes recorded across all buckets.
    pub open spec fn total(self) -> int {
        sum_prefix(self.counts(), NUM_BUCKETS as int)
    }

    /// The counters as an array, for positional access.
    fn to_array(&self) -> (r: [u64; NUM_BUCKETS])
        ensures
            r@ == self.counts(),
    {
        let r: [u64; NUM_BUCKETS] = [
            self.minus_three,
            self.minus_two,
            self.minus_one,
            self.zero,
            self.one,
            self.two,
            self.three,
        ];
        proof {
            assert(r@ =~= self.counts());
        }
        r
    }
}

/// A single vote: a bucket selector chosen by the voter, encrypted under a
/// session key for the duration of one circuit execution.  The selector is
/// range-constrained at construction, so it is structurally incapable of
/// indexing outside the seven buckets inside the circuit.
pub struct UserVote {
    vote_idx: u8,
}

impl UserVote {
    #[verifier::type_invariant]
    spec fn selector_in_range(self) -> bool {
        self.vote_idx < NUM_BUCKETS as u8
    }

    /// The selected bucket index.
    pub closed spec fn idx(self) -> u8 {
        self.vote_idx
    }

    /// Builds a vote for bucket `vote_idx`; an out-of-range selector is
    /// rejected here, before it can ever reach the circuit.
    pub fn new(vote_idx: u8) -> (r: Option<UserVote>)
        ensures
            r is Some <==> vote_idx < NUM_BUCKETS as u8,
            r is Some ==> r->0.idx() == vote_idx,
    {
        if vote_idx < NUM_BUCKETS as u8 {
            Some(UserVote { vote_idx })
        } else {
            None
        }
    }

    /// The vote value this selector stands for, in -3 ..= +3.
    pub fn value(&self) -> (r: i8)
        ensures
            r == self.idx() - 3,
    {
        proof {
            use_type_invariant(self);
        }
        (self.vote_idx as i8) - 3
    }
}

/// The counters with bucket `i` incremented by one.
pub open spec fn apply_vote_spec(counts: Seq<u64>, i: int) -> Seq<u64> {
    counts.update(i, (counts[i] + 1) as u64)
}

/// The counters after tallying every selector of `votes` in order.
pub open spec fn apply_votes_spec(counts: Seq<u64>, votes: Seq<int>) -> Seq<u64>
    decreases votes.len(),
{
    if votes.len() == 0 {
        counts
    } else {
        apply_votes_spec(apply_vote_spec(counts, votes[0]), votes.drop_first())
    }
}

/// Seven zeroed counters.
pub open spec fn zero_counts() -> Seq<u64> {
    seq![0u64, 0u64, 0u64, 0u64, 0u64, 0u64, 0u64]
}

/// Tally-initialisation circuit: produces a fresh all-zero tally.
pub fn init_vote_stats() -> (r: VoteStats)
    ensures
        r.counts() == zero_counts(),
        r.total() == 0,
{
    let r = VoteStats {
        minus_three: 0,
        minus_two: 0,
        minus_one: 0,
        zero: 0,
        one: 0,
        two: 0,
        three: 0,
    };
    proof {
        reveal_with_fuel(sum_prefix, 8);
        assert(r.counts() =~= zero_counts());
    }
    r
}

/// Tally circuit: increments the one bucket selected by the vote.  Each
/// accepted vote increments exactly one counter by exactly one, so the total
/// grows by exactly one.
pub fn vote(vote_ctxt: UserVote, vote_stats_ctxt: VoteStats) -> (r: VoteStats)
    requires
        vote_stats_ctxt.total() < u64::MAX,
    ensures
        r.counts() == apply_vote_spec(vote_stats_ctxt.counts(), vote_ctxt.idx() as int),
        r.total() == vote_stats_ctxt.total() + 1,
{
    proof {
        use_type_invariant(&vote_ctxt);
    }
    let mut counts = vote_stats_ctxt.to_array();
    let i = vote_ctxt.vote_idx as usize;
    proof {
        lemma_element_le_sum_prefix(counts@, i as int, NUM_BUCKETS as int);
    }
    counts[i] = counts[i] + 1;
    let r = VoteStats {
        minus_three: counts[0],
        minus_two: counts[1],
        minus_one: counts[2],
        zero: counts[3],
        one: counts[4],
        two: counts[5],
        three: counts[6],
    };
    proof {
        assert(r.counts() =~= apply_vote_spec(vote_stats_ctxt.counts(), i as int));
        lemma_sum_prefix_update(
            vote_stats_ctxt.counts(),
            i as int,
            (vote_stats_ctxt.counts()[i as int] + 1) as u64,
            NUM_BUCKETS as int,
        );
    }
    r
}

/// How much a reveal discloses: the whole bucket-count vector, or only the
/// median vote value.  Disclosing only the median is the stricter policy.
#[derive(Clone, Copy, Debug, PartialEq, Eq, Structural)]
pub enum DisclosurePolicy {
    FullVector,
    MedianOnly,
}

/// The aggregate statistic a reveal disclosed.
#[derive(Clone, Copy, Debug, PartialEq, Eq)]
pub enum RevealedAggregate {
    /// All seven bucket counts, in scan order.
    Counts([u64; NUM_BUCKETS]),
    /// The median vote value, in -3 ..= +3.
    Median(i8),
}

/// Bucket `i` holds the median: with `mid` the midpoint `total / 2`, it is
/// the bucket where the cumulative count first passes `mid`.  When `mid`
/// falls exactly on a cumulative boundary, the lower-indexed (more negative)
/// bucket wins.
pub open spec fn is_median_bucket(counts: Seq<u64>, i: int) -> bool {
    let mid = sum_prefix(counts, counts.len() as int) / 2;
    &&& 0 <= i < counts.len()
    &&& sum_prefix(counts, i) <= mid
    &&& mid < sum_prefix(counts, i) + counts[i]
}

/// Reveal circuit: decrypts the tally and discloses an aggregate chosen by
/// the disclosure policy.  A poll with no votes has no aggregate: that case
/// is detected and rejected explicitly, never reported as bucket 0.
pub fn reveal_result(vote_stats_ctxt: VoteStats, policy: DisclosurePolicy) -> (r: Result<
    RevealedAggregate,
    ErrorCode,
>)
    ensures
        r is Err <==> vote_stats_ctxt.total() == 0,
        r is Err ==> r->Err_0 == ErrorCode::NoRevealedVotes,
        policy is FullVector && r is Ok ==> (r->Ok_0 matches RevealedAggregate::Counts(c)
            && c@ == vote_stats_ctxt.counts()),
        policy is MedianOnly && r is Ok ==> (r->Ok_0 matches RevealedAggregate::Median(v)
            && is_median_bucket(vote_stats_ctxt.counts(), v + 3)),
{
    let counts = vote_stats_ctxt.to_array();
    let total: u128 = counts[0] as u128 + counts[1] as u128 + counts[2] as u128
        + counts[3] as u128 + counts[4] as u128 + counts[5] as u128 + counts[6] as u128;
    proof {
        reveal_with_fuel(sum_prefix, 8);
        assert(total == vote_stats_ctxt.total());
    }
    if total == 0 {
        return Err(ErrorCode::NoRevealedVotes);
    }
    match policy {
        DisclosurePolicy::FullVector => Ok(RevealedAggregate::Counts(counts)),
        DisclosurePolicy::MedianOnly => {
            let mid: u128 = total / 2;
            let mut cum: u128 = 0;
            let mut i: usize = 0;
            while i < NUM_BUCKETS
                invariant
                    policy is MedianOnly,
                    i <= NUM_BUCKETS,
                    counts@ == vote_stats_ctxt.counts(),
                    total == vote_stats_ctxt.total(),
                    0 < total,
                    mid == total / 2,
                    cum == sum_prefix(counts@, i as int),
                    cum <= mid,
                decreases NUM_BUCKETS - i,
            {
                if mid < cum + counts[i] as u128 {
                    let value: i8 = (i as i8) - 3;
                    return Ok(RevealedAggregate::Median(value));
                }
                cum = cum + counts[i] as u128;
                i = i + 1;
            }
            // Unreachable: the cumulative count reaches `total`, and the
            // midpoint of a non-empty tally lies strictly below it.
            proof {
                assert(cum == vote_stats_ctxt.total());
                assert(false);
            }
            Err(ErrorCode::NoRevealedVotes)
        },
    }
}

/// Every prefix sum of unsigned counters is non-negative.
pub proof fn lemma_sum_prefix_nonneg(s: Seq<u64>, n: int)
    requires
        n <= s.len(),
    ensures
        sum_prefix(s, n) >= 0,
    decreases n,
{
    if n > 0 {
        lemma_sum_prefix_nonneg(s, n - 1);
    }
}

/// Each counter is bounded by any prefix sum that covers it.
pub proof fn lemma_element_le_sum_prefix(s: Seq<u64>, i: int, n: int)
    requires
        0 <= i < n <= s.len(),
    ensures
        s[i] <= sum_prefix(s, n),
    decreases n,
{
    if i == n - 1 {
        lemma_sum_prefix_nonneg(s, n - 1);
    } else {
        lemma_element_le_sum_prefix(s, i, n - 1);
    }
}

/// A prefix sum only depends on the entries it covers.
pub proof fn lemma_sum_prefix_eq(s: Seq<u64>, t: Seq<u64>, n: int)
    requires
        forall|j: int| 0 <= j < n ==> s[j] == t[j],
    ensures
        sum_prefix(s, n) == sum_prefix(t, n),
    decreases n,
{
    if n > 0 {
        lemma_sum_prefix_eq(s, t, n - 1);
    }
}

/// Overwriting one covered entry shifts the prefix sum by the difference.
pub proof fn lemma_sum_prefix_update(s: Seq<u64>, i: int, v: u64, n: int)
    requires
        0 <= i < n <= s.len(),
    ensures
        sum_prefix(s.update(i, v), n) == sum_prefix(s, n) - s[i] + v,
    decreases n,
{
    if i == n - 1 {
        lemma_sum_prefix_eq(s.update(i, v), s, n - 1);
    } else {
        lemma_sum_prefix_update(s, i, v, n - 1);
    }
}

/// Prefix sums of unsigned counters never decrease.
pub proof fn lemma_sum_prefix_monotone(s: Seq<u64>, i: int, n: int)
    requires
        0 <= i <= n <= s.len(),
    ensures
        sum_prefix(s, i) <= sum_prefix(s, n),
    decreases n,
{
    if i < n {
        lemma_sum_prefix_monotone(s, i, n - 1);
    }
}

/// The median bucket is unique: the cumulative intervals of the buckets are
/// disjoint, so the midpoint falls into exactly one of them.  Together with
/// the reveal contract this pins the disclosed median down completely.
pub proof fn lemma_median_bucket_unique(counts: Seq<u64>, i: int, j: int)
    requires
        is_median_bucket(counts, i),
        is_median_bucket(counts, j),
    ensures
        i == j,
{
    let mid = sum_prefix(counts, counts.len() as int) / 2;
    if i < j {
        lemma_sum_prefix_monotone(counts, i + 1, j);
        assert(mid < sum_prefix(counts, i) + counts[i]);
        assert(sum_prefix(counts, i) + counts[i] == sum_prefix(counts, i + 1));
        assert(sum_prefix(counts, j) <= mid);
    }
    if j < i {
        lemma_sum_prefix_monotone(counts, j + 1, i);
        assert(mid < sum_prefix(counts, j) + counts[j]);
        assert(sum_prefix(counts, j) + counts[j] == sum_prefix(counts, j + 1));
        assert(sum_prefix(counts, i) <= mid);
    }
}

/// After tallying a sequence of accepted votes, the counters sum to the old
/// total plus the number of votes tallied.
pub proof fn lemma_apply_votes_sum(counts: Seq<u64>, votes: Seq<int>)
    requires
        counts.len() == NUM_BUCKETS,
        forall|k: int| 0 <= k < votes.len() ==> 0 <= #[trigger] votes[k] < NUM_BUCKETS,
        sum_prefix(counts, NUM_BUCKETS as int) + votes.len() <= u64::MAX,
    ensures
        apply_votes_spec(counts, votes).len() == NUM_BUCKETS,
        sum_prefix(apply_votes_spec(counts, votes), NUM_BUCKETS as int) == sum_prefix(
            counts,
            NUM_BUCKETS as int,
        ) + votes.len(),
    decreases votes.len(),
{
    if votes.len() > 0 {
        let i = votes[0];
        let bumped = apply_vote_spec(counts, i);
        lemma_element_le_sum_prefix(counts, i, NUM_BUCKETS as int);
        lemma_sum_prefix_nonneg(counts, NUM_BUCKETS as int);
        lemma_sum_prefix_update(counts, i, (counts[i] + 1) as u64, NUM_BUCKETS as int);
        assert(forall|k: int|
            0 <= k < votes.drop_first().len() ==> 0 <= #[trigger] votes.drop_first()[k]
                < NUM_BUCKETS);
        lemma_apply_votes_sum(bumped, votes.drop_first());
    }
}

/// Full-vector disclosure law: starting from a fresh tally, after any
/// sequence of accepted votes the bucket counts — which are exactly what a
/// full-vector reveal discloses — sum to the number of accepted votes.
pub proof fn lemma_revealed_counts_sum(votes: Seq<int>)
    requires
        forall|k: int| 0 <= k < votes.len() ==> 0 <= #[trigger] votes[k] < NUM_BUCKETS,
        votes.len() <= u64::MAX,
    ensures
        sum_prefix(apply_votes_spec(zero_counts(), votes), NUM_BUCKETS as int) == votes.len(),
{
    reveal_with_fuel(sum_prefix, 8);
    assert(sum_prefix(zero_counts(), NUM_BUCKETS as int) == 0);
    lemma_apply_votes_sum(zero_counts(), votes);
}

} // verus!
