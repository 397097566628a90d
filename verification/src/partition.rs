//! The round partitioner: turns a dependency-ordered list of weighted
//! arithmetic steps into budget-bounded rounds.
//!
//! The policy is a deterministic greedy walk: steps accumulate into the
//! current round while the running weight stays within the budget; the
//! moment the next step would exceed it, the round closes and a new one
//! starts.  The output is a pure function of the weight table and the
//! budget — never of any runtime input — and every generated round's
//! weight sum respects the budget.  A single step heavier than the budget
//! makes partitioning infeasible; that is reported when the table is
//! built, never at proving time.

use vstd::prelude::*;

verus! {

/// A round: the half-open range of step indices it executes.
#[derive(Clone, Copy, PartialEq, Eq, Structural, Debug)]
pub struct StepRange {
    pub start: usize,
    pub end: usize,
}

/// An ordered list of rounds covering a step list.
pub struct RoundProgram {
    pub rounds: Vec<StepRange>,
}

/// Why a round table could not be built.
#[derive(Clone, Copy, PartialEq, Eq, Structural, Debug)]
pub enum PartitionError {
    /// A single atomic step outweighs the whole per-round budget.
    StepExceedsBudget,
}

/// The summed weight of steps `start..end`.
pub open spec fn range_weight(weights: Seq<u64>, start: int, end: int) -> int
    decreases end - start,
{
    if start >= end {
        0
    } else {
        range_weight(weights, start, end - 1) + weights[end - 1]
    }
}

/// Where the round that has already accumulated `acc` up to step `e`
/// ends: the first point at which the next step would break the budget.
pub open spec fn spec_extend(weights: Seq<u64>, budget: u64, e: int, acc: int) -> int
    decreases weights.len() - e,
{
    if e >= weights.len() {
        e
    } else if acc + weights[e] > budget {
        e
    } else {
        spec_extend(weights, budget, e + 1, acc + weights[e])
    }
}

/// Where the round starting at step `s` ends under the greedy policy.
pub open spec fn spec_round_end(weights: Seq<u64>, budget: u64, s: int) -> int {
    spec_extend(weights, budget, s + 1, weights[s] as int)
}

/// The greedy partition of steps `start..`, one round at a time.
pub open spec fn spec_greedy_from(weights: Seq<u64>, budget: u64, start: int) -> Seq<StepRange>
    decreases weights.len() - start,
{
    if start < 0 || start >= weights.len() {
        Seq::empty()
    } else {
        let end = spec_round_end(weights, budget, start);
        if start < end <= weights.len() {
            seq![StepRange { start: start as usize, end: end as usize }] + spec_greedy_from(
                weights,
                budget,
                end,
            )
        } else {
            Seq::empty()
        }
    }
}

/// The rounds partition steps `start..` in order: each begins where the
/// previous ended, none is empty, and each respects the budget.
pub open spec fn valid_partition_from(
    rounds: Seq<StepRange>,
    weights: Seq<u64>,
    budget: u64,
    start: int,
) -> bool
    decreases rounds.len(),
{
    if rounds.len() == 0 {
        start == weights.len()
    } else {
        let r0 = rounds[0];
        &&& r0.start == start
        &&& r0.start < r0.end <= weights.len()
        &&& range_weight(weights, r0.start as int, r0.end as int) <= budget
        &&& valid_partition_from(rounds.drop_first(), weights, budget, r0.end as int)
    }
}

/// The rounds partition the whole step list.
pub open spec fn valid_partition(rounds: Seq<StepRange>, weights: Seq<u64>, budget: u64) -> bool {
    valid_partition_from(rounds, weights, budget, 0)
}

/// One step's own weight is its range's weight.
proof fn lemma_range_weight_single(weights: Seq<u64>, s: int)
    requires
        0 <= s < weights.len(),
    ensures
        range_weight(weights, s, s + 1) == weights[s],
{
    assert(range_weight(weights, s, s) == 0);
}

/// Extending a round keeps its weight within the budget and its end
/// within the table.
proof fn lemma_extend_props(weights: Seq<u64>, budget: u64, s: int, e: int, acc: int)
    requires
        0 <= s < e <= weights.len(),
        acc == range_weight(weights, s, e),
        acc <= budget,
    ensures
        e <= spec_extend(weights, budget, e, acc) <= weights.len(),
        range_weight(weights, s, spec_extend(weights, budget, e, acc)) <= budget,
    decreases weights.len() - e,
{
    if e < weights.len() && acc + weights[e] <= budget {
        lemma_extend_props(weights, budget, s, e + 1, acc + weights[e]);
    }
}

/// The greedy partition of a table whose steps all fit the budget is a
/// valid partition.
proof fn lemma_greedy_valid(weights: Seq<u64>, budget: u64, start: int)
    requires
        0 <= start <= weights.len(),
        weights.len() <= usize::MAX,
        forall|k: int| 0 <= k < weights.len() ==> weights[k] <= budget,
    ensures
        valid_partition_from(spec_greedy_from(weights, budget, start), weights, budget, start),
    decreases weights.len() - start,
{
    if start < weights.len() {
        lemma_range_weight_single(weights, start);
        lemma_extend_props(weights, budget, start, start + 1, weights[start] as int);
        let end = spec_round_end(weights, budget, start);
        lemma_greedy_valid(weights, budget, end);
        let g = spec_greedy_from(weights, budget, start);
        assert(g[0] == StepRange { start: start as usize, end: end as usize });
        assert(g.drop_first() =~= spec_greedy_from(weights, budget, end));
    }
}

/// Budget compliance: every round of a valid partition weighs at most
/// the budget.
pub proof fn lemma_round_budget(rounds: Seq<StepRange>, weights: Seq<u64>, budget: u64, i: int)
    requires
        valid_partition(rounds, weights, budget),
        0 <= i < rounds.len(),
    ensures
        range_weight(weights, rounds[i].start as int, rounds[i].end as int) <= budget,
{
    lemma_round_budget_from(rounds, weights, budget, 0, i);
}

proof fn lemma_round_budget_from(
    rounds: Seq<StepRange>,
    weights: Seq<u64>,
    budget: u64,
    start: int,
    i: int,
)
    requires
        valid_partition_from(rounds, weights, budget, start),
        0 <= i < rounds.len(),
    ensures
        range_weight(weights, rounds[i].start as int, rounds[i].end as int) <= budget,
    decreases i,
{
    if i > 0 {
        lemma_round_budget_from(
            rounds.drop_first(),
            weights,
            budget,
            rounds[0].end as int,
            i - 1,
        );
        assert(rounds.drop_first()[i - 1] == rounds[i]);
    }
}

/// Input-independence: the partition — and with it the round count — is
/// a function of the weight table and the budget alone, never of any
/// runtime input.
pub proof fn lemma_partition_input_independent(
    weights: Seq<u64>,
    budget: u64,
    p1: Seq<StepRange>,
    p2: Seq<StepRange>,
)
    requires
        p1 == spec_greedy_from(weights, budget, 0),
        p2 == spec_greedy_from(weights, budget, 0),
    ensures
        p1 == p2,
        p1.len() == p2.len(),
{
}

/// A table whose every step fits the budget alone but no two together
/// is partitioned into exactly one step per round.
pub proof fn lemma_greedy_singletons(weights: Seq<u64>, budget: u64, start: int)
    requires
        0 <= start <= weights.len(),
        weights.len() <= usize::MAX,
        forall|k: int| 0 <= k < weights.len() ==> weights[k] <= budget,
        forall|k: int| 0 <= k < weights.len() - 1 ==> #[trigger] weights[k] + weights[k + 1] > budget,
    ensures
        spec_greedy_from(weights, budget, start).len() == weights.len() - start,
    decreases weights.len() - start,
{
    if start < weights.len() {
        assert(spec_round_end(weights, budget, start) == start + 1);
        lemma_greedy_singletons(weights, budget, start + 1);
    }
}

/// Builds the greedy partition of `weights` under `budget`, or reports
/// infeasibility if a single step exceeds the budget.
pub fn partition(weights: &Vec<u64>, budget: u64) -> (res: Result<RoundProgram, PartitionError>)
    ensures
        res is Ok ==> {
            let p = res.unwrap();
            &&& p.rounds@ == spec_greedy_from(weights@, budget, 0)
            &&& valid_partition(p.rounds@, weights@, budget)
        },
        res is Err ==> res == Err::<RoundProgram, PartitionError>(
            PartitionError::StepExceedsBudget,
        ) && exists|k: int| 0 <= k < weights@.len() && weights@[k] > budget,
{
    let mut rounds: Vec<StepRange> = Vec::new();
    let n = weights.len();
    if n == 0 {
        return Ok(RoundProgram { rounds });
    }
    let w0 = weights[0];
    if w0 > budget {
        return Err(PartitionError::StepExceedsBudget);
    }
    let mut start: usize = 0;
    let mut acc: u64 = w0;
    let mut i: usize = 1;
    proof {
        lemma_range_weight_single(weights@, 0);
    }
    while i < n
        invariant
            n == weights@.len(),
            1 <= i <= n,
            start < i,
            acc == range_weight(weights@, start as int, i as int),
            acc <= budget,
            forall|k: int| 0 <= k < i ==> weights@[k] <= budget,
            spec_greedy_from(weights@, budget, 0) == rounds@ + spec_greedy_from(
                weights@,
                budget,
                start as int,
            ),
            spec_round_end(weights@, budget, start as int) == spec_extend(
                weights@,
                budget,
                i as int,
                acc as int,
            ),
        decreases n - i,
    {
        let w = weights[i];
        if w > budget {
            return Err(PartitionError::StepExceedsBudget);
        }
        if w > budget - acc {
            proof {
                lemma_extend_props(weights@, budget, start as int, i as int, acc as int);
            }
            rounds.push(StepRange { start, end: i });
            proof {
                assert(rounds@ + spec_greedy_from(weights@, budget, i as int)
                    =~= rounds@.drop_last() + spec_greedy_from(weights@, budget, start as int));
            }
            start = i;
            acc = w;
            proof {
                lemma_range_weight_single(weights@, i as int);
            }
        } else {
            acc = acc + w;
        }
        i = i + 1;
    }
    proof {
        lemma_extend_props(weights@, budget, start as int, i as int, acc as int);
    }
    rounds.push(StepRange { start, end: n });
    proof {
        assert(rounds@ + spec_greedy_from(weights@, budget, n as int) =~= rounds@.drop_last()
            + spec_greedy_from(weights@, budget, start as int));
        assert(rounds@ =~= rounds@ + spec_greedy_from(weights@, budget, n as int));
        lemma_greedy_valid(weights@, budget, 0);
    }
    Ok(RoundProgram { rounds })
}

} // verus!
