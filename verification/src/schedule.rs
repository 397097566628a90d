//! The engine's round schedule: per-round cost tables for each
//! sub-computation, and the build-time pass that runs the partitioner
//! over them.  The partitioner reports a step too heavy for the budget as
//! a build-time failure; for these tables that is proved impossible, and
//! each partition is proved to produce exactly the engine's declared
//! round count.
//!
//! A round's weight is the fixed per-invocation overhead plus its
//! arithmetic cost, estimated in base-field multiplications.  Every
//! weight exceeds half the budget (the overhead alone does), so no two
//! steps share a round: the greedy partition puts one step per round.

use vstd::prelude::*;

use crate::exp::EXP_BY_NEG_X_ROUNDS;
use crate::fexp::FINAL_EXP_ROUNDS;
use crate::inverse::INVERSE_FQ12_ROUNDS;
use crate::miller::{ate_digit, MILLER_LOOP_ROUNDS};
use crate::mul034::ELL_ROUNDS;
use crate::partition::{
    lemma_greedy_singletons, partition, valid_partition, RoundProgram,
};

verus! {

/// The per-round computational budget.
pub const ROUND_BUDGET: u64 = 1200;

/// The fixed cost every invocation pays before any arithmetic:
/// deserializing and persisting the round state.
pub const ROUND_OVERHEAD: u64 = 600;

/// Appends the line evaluation's six per-round costs.
fn push_ell_weights(weights: &mut Vec<u64>)
    ensures
        final(weights)@.len() == old(weights)@.len() + ELL_ROUNDS,
        forall|k: int|
            0 <= k < old(weights)@.len() ==> final(weights)@[k] == old(weights)@[k],
        forall|k: int|
            old(weights)@.len() <= k < final(weights)@.len()
                ==> ROUND_OVERHEAD < #[trigger] final(weights)@[k] <= ROUND_BUDGET,
{
    weights.push(ROUND_OVERHEAD + 4);
    weights.push(ROUND_OVERHEAD + 9);
    weights.push(ROUND_OVERHEAD + 18);
    weights.push(ROUND_OVERHEAD + 18);
    weights.push(ROUND_OVERHEAD + 10);
    weights.push(ROUND_OVERHEAD + 1);
}

/// Appends the doubling step's three per-round costs.
fn push_doubling_weights(weights: &mut Vec<u64>)
    ensures
        final(weights)@.len() == old(weights)@.len() + 3,
        forall|k: int|
            0 <= k < old(weights)@.len() ==> final(weights)@[k] == old(weights)@[k],
        forall|k: int|
            old(weights)@.len() <= k < final(weights)@.len()
                ==> ROUND_OVERHEAD < #[trigger] final(weights)@[k] <= ROUND_BUDGET,
{
    weights.push(ROUND_OVERHEAD + 25);
    weights.push(ROUND_OVERHEAD + 15);
    weights.push(ROUND_OVERHEAD + 10);
}

/// The tower inversion's per-round costs.
fn inverse_weights() -> (w: Vec<u64>)
    ensures
        w@.len() == INVERSE_FQ12_ROUNDS,
        forall|k: int| 0 <= k < w@.len() ==> ROUND_OVERHEAD < #[trigger] w@[k] <= ROUND_BUDGET,
{
    let mut w: Vec<u64> = Vec::new();
    w.push(ROUND_OVERHEAD + 15);
    w.push(ROUND_OVERHEAD + 15);
    w.push(ROUND_OVERHEAD + 5);
    w.push(ROUND_OVERHEAD + 40);
    w.push(ROUND_OVERHEAD + 40);
    w
}

/// The fixed-exponent exponentiation's per-round costs; the digit rounds'
/// costs follow the Non-Adjacent-Form sequence.
fn exp_weights() -> (w: Vec<u64>)
    ensures
        w@.len() == EXP_BY_NEG_X_ROUNDS,
        forall|k: int| 0 <= k < w@.len() ==> ROUND_OVERHEAD < #[trigger] w@[k] <= ROUND_BUDGET,
{
    let mut w: Vec<u64> = Vec::new();
    w.push(ROUND_OVERHEAD + 1);
    let mut k: usize = 0;
    while k < 63
        invariant
            k <= 63,
            w@.len() == 1 + k,
            forall|i: int| 0 <= i < w@.len() ==> ROUND_OVERHEAD < #[trigger] w@[i] <= ROUND_BUDGET,
        decreases 63 - k,
    {
        let d = crate::exp::exp_naf_digit(k);
        let square: u64 = if k > 0 {
            18
        } else {
            0
        };
        let mul: u64 = if d != 0 {
            54
        } else {
            0
        };
        w.push(ROUND_OVERHEAD + square + mul);
        k = k + 1;
    }
    w.push(ROUND_OVERHEAD + 1);
    w
}

/// Appends another weight table whole.
fn push_all(weights: &mut Vec<u64>, more: &Vec<u64>)
    ensures
        final(weights)@.len() == old(weights)@.len() + more@.len(),
        forall|k: int|
            0 <= k < old(weights)@.len() ==> final(weights)@[k] == old(weights)@[k],
        forall|k: int|
            old(weights)@.len() <= k < final(weights)@.len() ==> #[trigger] final(weights)@[k]
                == more@[k - old(weights)@.len()],
{
    let mut i: usize = 0;
    while i < more.len()
        invariant
            i <= more@.len(),
            weights@.len() == old(weights)@.len() + i,
            forall|k: int| 0 <= k < old(weights)@.len() ==> weights@[k] == old(weights)@[k],
            forall|k: int|
                old(weights)@.len() <= k < weights@.len() ==> #[trigger] weights@[k] == more@[k
                    - old(weights)@.len()],
        decreases more@.len() - i,
    {
        weights.push(more[i]);
        i = i + 1;
    }
}

/// The final exponentiation's per-round costs: its own eleven rounds with
/// the nested inversion and the three nested exponentiations spliced in.
fn fexp_weights() -> (w: Vec<u64>)
    ensures
        w@.len() == FINAL_EXP_ROUNDS,
        forall|k: int| 0 <= k < w@.len() ==> ROUND_OVERHEAD < #[trigger] w@[k] <= ROUND_BUDGET,
{
    let mut w: Vec<u64> = Vec::new();
    let inv = inverse_weights();
    let exp = exp_weights();
    w.push(ROUND_OVERHEAD + 1);
    proof {
        assert(forall|k: int| 0 <= k < w@.len() ==> ROUND_OVERHEAD < #[trigger] w@[k] <= ROUND_BUDGET);
    }
    push_all(&mut w, &inv);
    proof {
        assert(forall|k: int| 0 <= k < w@.len() ==> ROUND_OVERHEAD < #[trigger] w@[k] <= ROUND_BUDGET);
    }
    w.push(ROUND_OVERHEAD + 54);
    proof {
        assert(forall|k: int| 0 <= k < w@.len() ==> ROUND_OVERHEAD < #[trigger] w@[k] <= ROUND_BUDGET);
    }
    w.push(ROUND_OVERHEAD + 60);
    proof {
        assert(forall|k: int| 0 <= k < w@.len() ==> ROUND_OVERHEAD < #[trigger] w@[k] <= ROUND_BUDGET);
    }
    push_all(&mut w, &exp);
    proof {
        assert(forall|k: int| 0 <= k < w@.len() ==> ROUND_OVERHEAD < #[trigger] w@[k] <= ROUND_BUDGET);
    }
    w.push(ROUND_OVERHEAD + 90);
    proof {
        assert(forall|k: int| 0 <= k < w@.len() ==> ROUND_OVERHEAD < #[trigger] w@[k] <= ROUND_BUDGET);
    }
    push_all(&mut w, &exp);
    proof {
        assert(forall|k: int| 0 <= k < w@.len() ==> ROUND_OVERHEAD < #[trigger] w@[k] <= ROUND_BUDGET);
    }
    w.push(ROUND_OVERHEAD + 18);
    proof {
        assert(forall|k: int| 0 <= k < w@.len() ==> ROUND_OVERHEAD < #[trigger] w@[k] <= ROUND_BUDGET);
    }
    push_all(&mut w, &exp);
    proof {
        assert(forall|k: int| 0 <= k < w@.len() ==> ROUND_OVERHEAD < #[trigger] w@[k] <= ROUND_BUDGET);
    }
    w.push(ROUND_OVERHEAD + 2);
    proof {
        assert(forall|k: int| 0 <= k < w@.len() ==> ROUND_OVERHEAD < #[trigger] w@[k] <= ROUND_BUDGET);
    }
    w.push(ROUND_OVERHEAD + 216);
    proof {
        assert(forall|k: int| 0 <= k < w@.len() ==> ROUND_OVERHEAD < #[trigger] w@[k] <= ROUND_BUDGET);
    }
    w.push(ROUND_OVERHEAD + 60);
    proof {
        assert(forall|k: int| 0 <= k < w@.len() ==> ROUND_OVERHEAD < #[trigger] w@[k] <= ROUND_BUDGET);
    }
    w.push(ROUND_OVERHEAD + 60);
    proof {
        assert(forall|k: int| 0 <= k < w@.len() ==> ROUND_OVERHEAD < #[trigger] w@[k] <= ROUND_BUDGET);
    }
    w.push(ROUND_OVERHEAD + 55);
    proof {
        assert(forall|k: int| 0 <= k < w@.len() ==> ROUND_OVERHEAD < #[trigger] w@[k] <= ROUND_BUDGET);
    }
    w.push(ROUND_OVERHEAD + 114);
    proof {
        assert(forall|k: int| 0 <= k < w@.len() ==> ROUND_OVERHEAD < #[trigger] w@[k] <= ROUND_BUDGET);
    }
    w
}

/// The combined Miller loop's per-round costs, following the fixed digit
/// sequence.
fn miller_weights() -> (w: Vec<u64>)
    ensures
        w@.len() == MILLER_LOOP_ROUNDS,
        forall|k: int| 0 <= k < w@.len() ==> ROUND_OVERHEAD < #[trigger] w@[k] <= ROUND_BUDGET,
{
    let mut w: Vec<u64> = Vec::new();
    let mut j: usize = 0;
    let ghost mut n_sq: int = 0;
    let ghost mut n_dbl: int = 0;
    let ghost mut n_add: int = 0;
    while j < 64
        invariant
            j <= 64,
            0 <= n_add <= n_dbl == j,
            n_sq == if j > 0 {
                j - 1
            } else {
                0
            },
            w@.len() == n_sq + 21 * n_dbl + 19 * n_add,
            n_add == spec_nonzero_bits(j as int),
            forall|i: int| 0 <= i < w@.len() ==> ROUND_OVERHEAD < #[trigger] w@[i] <= ROUND_BUDGET,
        decreases 64 - j,
    {
        if j > 0 {
            w.push(ROUND_OVERHEAD + 36);
            proof {
                n_sq = n_sq + 1;
            }
        }
        push_doubling_weights(&mut w);
        push_ell_weights(&mut w);
        push_ell_weights(&mut w);
        push_ell_weights(&mut w);
        proof {
            n_dbl = n_dbl + 1;
        }
        let bit = ate_digit(63 - j);
        if bit != 0 {
            w.push(ROUND_OVERHEAD + 40);
            push_ell_weights(&mut w);
            push_ell_weights(&mut w);
            push_ell_weights(&mut w);
            proof {
                n_add = n_add + 1;
            }
        }
        j = j + 1;
    }
    proof {
        lemma_nonzero_bits_value();
    }
    // the closing twisted additions
    w.push(ROUND_OVERHEAD + 9);
    proof {
        assert(forall|k: int| 0 <= k < w@.len() ==> ROUND_OVERHEAD < #[trigger] w@[k] <= ROUND_BUDGET);
    }
    w.push(ROUND_OVERHEAD + 9);
    proof {
        assert(forall|k: int| 0 <= k < w@.len() ==> ROUND_OVERHEAD < #[trigger] w@[k] <= ROUND_BUDGET);
    }
    w.push(ROUND_OVERHEAD + 9);
    proof {
        assert(forall|k: int| 0 <= k < w@.len() ==> ROUND_OVERHEAD < #[trigger] w@[k] <= ROUND_BUDGET);
    }
    w.push(ROUND_OVERHEAD + 9);
    proof {
        assert(forall|k: int| 0 <= k < w@.len() ==> ROUND_OVERHEAD < #[trigger] w@[k] <= ROUND_BUDGET);
    }
    w.push(ROUND_OVERHEAD + 40);
    proof {
        assert(forall|k: int| 0 <= k < w@.len() ==> ROUND_OVERHEAD < #[trigger] w@[k] <= ROUND_BUDGET);
    }
    push_ell_weights(&mut w);
    proof {
        assert(forall|k: int| 0 <= k < w@.len() ==> ROUND_OVERHEAD < #[trigger] w@[k] <= ROUND_BUDGET);
    }
    push_ell_weights(&mut w);
    proof {
        assert(forall|k: int| 0 <= k < w@.len() ==> ROUND_OVERHEAD < #[trigger] w@[k] <= ROUND_BUDGET);
    }
    push_ell_weights(&mut w);
    proof {
        assert(forall|k: int| 0 <= k < w@.len() ==> ROUND_OVERHEAD < #[trigger] w@[k] <= ROUND_BUDGET);
    }
    w.push(ROUND_OVERHEAD + 40);
    proof {
        assert(forall|k: int| 0 <= k < w@.len() ==> ROUND_OVERHEAD < #[trigger] w@[k] <= ROUND_BUDGET);
    }
    push_ell_weights(&mut w);
    proof {
        assert(forall|k: int| 0 <= k < w@.len() ==> ROUND_OVERHEAD < #[trigger] w@[k] <= ROUND_BUDGET);
    }
    push_ell_weights(&mut w);
    proof {
        assert(forall|k: int| 0 <= k < w@.len() ==> ROUND_OVERHEAD < #[trigger] w@[k] <= ROUND_BUDGET);
    }
    push_ell_weights(&mut w);
    proof {
        assert(forall|k: int| 0 <= k < w@.len() ==> ROUND_OVERHEAD < #[trigger] w@[k] <= ROUND_BUDGET);
    }
    w
}

/// How many of the first `j` driving digits are non-zero.
pub open spec fn spec_nonzero_bits(j: int) -> int
    decreases j,
{
    if j <= 0 {
        0
    } else {
        spec_nonzero_bits(j - 1) + if crate::miller::spec_bit(j - 1) != 0 {
            1int
        } else {
            0int
        }
    }
}

/// The fixed digit sequence drives 25 additions.
proof fn lemma_nonzero_bits_value()
    ensures
        spec_nonzero_bits(64) == 25,
{
    reveal_with_fuel(spec_nonzero_bits, 65);
}

/// The engine's round table: each computation's weight table with its
/// greedy partition.
pub struct EngineRoundTable {
    pub inverse_weights: Vec<u64>,
    pub inverse: RoundProgram,
    pub exp_weights: Vec<u64>,
    pub exp: RoundProgram,
    pub fexp_weights: Vec<u64>,
    pub fexp: RoundProgram,
    pub miller_weights: Vec<u64>,
    pub miller: RoundProgram,
}

impl EngineRoundTable {
    /// Every partition is valid for its weight table under the budget,
    /// and produces exactly the engine's declared round count.
    pub open spec fn well_formed(&self) -> bool {
        &&& valid_partition(self.inverse.rounds@, self.inverse_weights@, ROUND_BUDGET)
        &&& self.inverse.rounds@.len() == INVERSE_FQ12_ROUNDS
        &&& valid_partition(self.exp.rounds@, self.exp_weights@, ROUND_BUDGET)
        &&& self.exp.rounds@.len() == EXP_BY_NEG_X_ROUNDS
        &&& valid_partition(self.fexp.rounds@, self.fexp_weights@, ROUND_BUDGET)
        &&& self.fexp.rounds@.len() == FINAL_EXP_ROUNDS
        &&& valid_partition(self.miller.rounds@, self.miller_weights@, ROUND_BUDGET)
        &&& self.miller.rounds@.len() == MILLER_LOOP_ROUNDS
    }
}

/// Builds the engine's round table once: partitions every weight table
/// under the budget.  Success is proved, not checked: every weight fits
/// the budget alone (so the partitioner cannot report infeasibility) and
/// exceeds half of it (so the greedy walk closes every round after one
/// step), which makes each partition's length exactly the engine's
/// declared round count.
pub fn build_round_table() -> (t: EngineRoundTable)
    ensures
        t.well_formed(),
{
    let iw = inverse_weights();
    proof {
        lemma_greedy_singletons(iw@, ROUND_BUDGET, 0);
    }
    let ip = match partition(&iw, ROUND_BUDGET) {
        Ok(p) => p,
        Err(_) => {
            proof {
                assert(false);
            }
            RoundProgram { rounds: Vec::new() }
        },
    };
    let ew = exp_weights();
    proof {
        lemma_greedy_singletons(ew@, ROUND_BUDGET, 0);
    }
    let ep = match partition(&ew, ROUND_BUDGET) {
        Ok(p) => p,
        Err(_) => {
            proof {
                assert(false);
            }
            RoundProgram { rounds: Vec::new() }
        },
    };
    let fw = fexp_weights();
    proof {
        lemma_greedy_singletons(fw@, ROUND_BUDGET, 0);
    }
    let fp = match partition(&fw, ROUND_BUDGET) {
        Ok(p) => p,
        Err(_) => {
            proof {
                assert(false);
            }
            RoundProgram { rounds: Vec::new() }
        },
    };
    let mw = miller_weights();
    proof {
        lemma_greedy_singletons(mw@, ROUND_BUDGET, 0);
    }
    let mp = match partition(&mw, ROUND_BUDGET) {
        Ok(p) => p,
        Err(_) => {
            proof {
                assert(false);
            }
            RoundProgram { rounds: Vec::new() }
        },
    };
    EngineRoundTable {
        inverse_weights: iw,
        inverse: ip,
        exp_weights: ew,
        exp: ep,
        fexp_weights: fw,
        fexp: fp,
        miller_weights: mw,
        miller: mp,
    }
}

} // verus!
