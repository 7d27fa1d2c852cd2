use crate::error::ClaimError;
use vstd::prelude::*;

verus! {

/// One day's published reward schedule: the thresholds in the order in which
/// they were published, best tier first, and the amount paid for each tier.
#[derive(Debug, PartialEq, Eq)]
pub struct Schedule {
    pub tiers: Vec<u64>,
    pub reward_per_tier: Vec<u64>,
}

/// The tier a metric has earned and the amount that goes with it.
#[derive(Clone, Copy, Debug, PartialEq, Eq, Structural)]
pub struct TierAward {
    pub index: usize,
    pub amount: u64,
}

/// `metric` reaches the threshold at position `i` and none before it.
pub open spec fn is_first_match(tiers: Seq<u64>, metric: u64, i: int) -> bool {
    &&& 0 <= i < tiers.len()
    &&& metric >= tiers[i]
    &&& forall|j: int| 0 <= j < i ==> metric < tiers[j]
}

/// `metric` reaches at least one threshold.
pub open spec fn has_match(tiers: Seq<u64>, metric: u64) -> bool {
    exists|i: int| 0 <= i < tiers.len() && metric >= tiers[i]
}

/// The position of the first threshold that `metric` reaches, if it reaches any.
pub open spec fn resolved_tier(tiers: Seq<u64>, metric: u64) -> Option<int> {
    if exists|i: int| is_first_match(tiers, metric, i) {
        Some(choose|i: int| is_first_match(tiers, metric, i))
    } else {
        None
    }
}

/// Thresholds never rise from one tier to the next.
pub open spec fn descending(tiers: Seq<u64>) -> bool {
    forall|i: int, j: int| 0 <= i <= j < tiers.len() ==> tiers[i] >= tiers[j]
}

/// A metric has at most one first match.
pub proof fn lemma_first_match_unique(tiers: Seq<u64>, metric: u64, i: int, j: int)
    requires
        is_first_match(tiers, metric, i),
        is_first_match(tiers, metric, j),
    ensures
        i == j,
{
    if i < j {
        assert(metric < tiers[i]);
    } else if j < i {
        assert(metric < tiers[j]);
    }
}

/// A first match is what the metric resolves to.
pub proof fn lemma_first_match_resolves(tiers: Seq<u64>, metric: u64, i: int)
    requires
        is_first_match(tiers, metric, i),
    ensures
        resolved_tier(tiers, metric) == Some(i),
{
    let k: int = choose|k: int| is_first_match(tiers, metric, k);
    lemma_first_match_unique(tiers, metric, i, k);
}

/// What a metric resolves to is its first match, and it resolves to nothing
/// only where it reaches no threshold at all.
pub proof fn lemma_resolved_tier(tiers: Seq<u64>, metric: u64)
    ensures
        resolved_tier(tiers, metric) is None <==> !has_match(tiers, metric),
        resolved_tier(tiers, metric) matches Some(i) ==> is_first_match(tiers, metric, i),
{
    if has_match(tiers, metric) {
        let k: int = choose|k: int| 0 <= k < tiers.len() && metric >= tiers[k];
        lemma_match_has_first(tiers, metric, k);
    }
}

/// Below any threshold that `metric` reaches lies a first one.
proof fn lemma_match_has_first(tiers: Seq<u64>, metric: u64, k: int)
    requires
        0 <= k < tiers.len(),
        metric >= tiers[k],
    ensures
        exists|i: int| is_first_match(tiers, metric, i),
    decreases k,
{
    if exists|j: int| 0 <= j < k && metric >= tiers[j] {
        let j: int = choose|j: int| 0 <= j < k && metric >= tiers[j];
        lemma_match_has_first(tiers, metric, j);
    } else {
        assert(is_first_match(tiers, metric, k));
    }
}

impl Schedule {
    /// The schedule has at least one tier and an amount for each.
    pub open spec fn wf(&self) -> bool {
        &&& self.tiers.len() == self.reward_per_tier.len()
        &&& self.tiers.len() >= 1
    }

    /// The threshold of the last tier, which every claimant has to reach.
    pub open spec fn lowest_threshold(&self) -> u64 {
        self.tiers@[self.tiers@.len() - 1]
    }

    /// What `metric` earns under this schedule: the first tier whose threshold
    /// it reaches, with that tier's amount.
    pub open spec fn resolution(&self, metric: u64) -> Result<TierAward, ClaimError> {
        match resolved_tier(self.tiers@, metric) {
            Some(i) => Ok(TierAward { index: i as usize, amount: self.reward_per_tier@[i] }),
            None => Err(ClaimError::InternalConsistencyError),
        }
    }

    /// Builds a schedule from its two lists, or nothing where they do not
    /// make one: no tier at all, or not one amount per tier.
    pub fn new(tiers: Vec<u64>, reward_per_tier: Vec<u64>) -> (r: Option<Schedule>)
        ensures
            r is Some <==> tiers@.len() == reward_per_tier@.len() && tiers@.len() >= 1,
            r matches Some(s) ==> s.wf() && s.tiers@ == tiers@ && s.reward_per_tier@
                == reward_per_tier@,
    {
        if tiers.len() == reward_per_tier.len() && tiers.len() >= 1 {
            Some(Schedule { tiers, reward_per_tier })
        } else {
            None
        }
    }

    /// Resolves `metric` to a tier: scans the thresholds in published order and
    /// stops at the first one that the metric reaches. Ties go to the earlier
    /// tier. A metric that reaches no threshold is an inconsistency, since
    /// validation lets no such metric through.
    pub fn resolve_tier(&self, metric: u64) -> (r: Result<TierAward, ClaimError>)
        requires
            self.wf(),
        ensures
            match r {
                Ok(award) => is_first_match(self.tiers@, metric, award.index as int)
                    && award.amount == self.reward_per_tier@[award.index as int],
                Err(e) => e == ClaimError::InternalConsistencyError && !has_match(
                    self.tiers@,
                    metric,
                ),
            },
            r == self.resolution(metric),
    {
        let mut i: usize = 0;
        while i < self.tiers.len()
            invariant
                self.wf(),
                i <= self.tiers@.len(),
                forall|j: int| 0 <= j < i ==> metric < self.tiers@[j],
            decreases self.tiers@.len() - i,
        {
            if metric >= self.tiers[i] {
                proof {
                    lemma_first_match_resolves(self.tiers@, metric, i as int);
                }
                return Ok(TierAward { index: i, amount: self.reward_per_tier[i] });
            }
            i += 1;
        }
        proof {
            lemma_resolved_tier(self.tiers@, metric);
        }
        Err(ClaimError::InternalConsistencyError)
    }
}

/// Tier monotonicity: a higher metric never resolves to a worse tier. Whenever
/// the lower metric resolves, so does the higher one, and to a tier that comes
/// no later. This holds of thresholds in any order.
pub proof fn law_tier_monotonic(tiers: Seq<u64>, m1: u64, m2: u64)
    requires
        m1 >= m2,
    ensures
        resolved_tier(tiers, m2) matches Some(i2) ==> (resolved_tier(tiers, m1) matches Some(i1)
            && i1 <= i2),
{
    lemma_resolved_tier(tiers, m2);
    lemma_resolved_tier(tiers, m1);
    if let Some(i2) = resolved_tier(tiers, m2) {
        assert(m1 >= tiers[i2]);
        let i1: int = resolved_tier(tiers, m1)->0;
        if i2 < i1 {
            assert(m1 < tiers[i2]);
        }
    }
}

/// With descending thresholds the resolved tier is the best one the metric
/// qualifies for: no threshold that the metric reaches is higher than the
/// resolved one.
pub proof fn law_descending_resolves_highest(tiers: Seq<u64>, metric: u64, k: int)
    requires
        descending(tiers),
        0 <= k < tiers.len(),
        metric >= tiers[k],
    ensures
        resolved_tier(tiers, metric) matches Some(i) && i <= k && tiers[i] >= tiers[k],
{
    lemma_resolved_tier(tiers, metric);
    let i: int = resolved_tier(tiers, metric)->0;
    if k < i {
        assert(metric < tiers[k]);
    }
}

} // verus!
