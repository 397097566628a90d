//! Program fees and warden compensation.
//!
//! Amounts are plain integers: native amounts in lamports, other tokens
//! by a per-token price giving lamports per token unit.  Every formula is
//! stated exactly; inputs on which the arithmetic would leave the 64-bit
//! range are excluded up front.

use vstd::prelude::*;

use crate::accounts::PDAAccountData;
use crate::fexp::FINAL_EXP_ROUNDS;
use crate::miller::MILLER_LOOP_ROUNDS;

verus! {

/// Transactions of the base-commitment hash computation.
pub const BASE_COMMITMENT_HASH_TX_COUNT: u64 = 2;

/// Transactions each tree-node hash of the commitment computation takes.
pub const COMMITMENT_HASH_TX_PER_NODE: u64 = 2;

/// The largest supported commitment batching rate.
pub const MAX_COMMITMENT_BATCHING_RATE: usize = 4;

/// An amount of the native token.
#[derive(Clone, Copy, PartialEq, Eq, Structural, Debug)]
pub struct Lamports(pub u64);

/// An amount of some supported token.
#[derive(Clone, Copy, PartialEq, Eq, Structural, Debug)]
pub struct Token {
    pub token_id: u16,
    pub amount: u64,
}

/// Token arithmetic and conversion failures.
#[derive(Clone, Copy, PartialEq, Eq, Structural, Debug)]
pub enum TokenError {
    MismatchedTokenID,
    Overflow,
    Underflow,
    InvalidPrice,
}

/// A token's price: how many lamports one token unit is worth.  Token 0
/// is the native token itself.
#[derive(Clone, Copy, PartialEq, Eq, Structural, Debug)]
pub struct TokenPrice {
    pub lamports_per_unit: u64,
}

impl Token {
    /// A token amount; every token id is accepted, the amount is taken
    /// as is.
    pub fn new_checked(token_id: u16, amount: u64) -> (r: Result<Token, TokenError>)
        ensures
            r == Ok::<Token, TokenError>(Token { token_id, amount }),
    {
        Ok(Token { token_id, amount })
    }

    /// Adds two amounts of the same token.
    pub fn try_add(&self, other: &Token) -> (r: Result<Token, TokenError>)
        ensures
            self.token_id != other.token_id ==> r == Err::<Token, TokenError>(
                TokenError::MismatchedTokenID,
            ),
            self.token_id == other.token_id && self.amount + other.amount > u64::MAX ==> r
                == Err::<Token, TokenError>(TokenError::Overflow),
            self.token_id == other.token_id && self.amount + other.amount <= u64::MAX ==> r
                == Ok::<Token, TokenError>(
                Token { token_id: self.token_id, amount: (self.amount + other.amount) as u64 },
            ),
    {
        if self.token_id != other.token_id {
            return Err(TokenError::MismatchedTokenID);
        }
        if other.amount > u64::MAX - self.amount {
            return Err(TokenError::Overflow);
        }
        Ok(Token { token_id: self.token_id, amount: self.amount + other.amount })
    }

    /// Subtracts an amount of the same token.
    pub fn try_sub(&self, other: &Token) -> (r: Result<Token, TokenError>)
        ensures
            self.token_id != other.token_id ==> r == Err::<Token, TokenError>(
                TokenError::MismatchedTokenID,
            ),
            self.token_id == other.token_id && self.amount < other.amount ==> r == Err::<
                Token,
                TokenError,
            >(TokenError::Underflow),
            self.token_id == other.token_id && self.amount >= other.amount ==> r == Ok::<
                Token,
                TokenError,
            >(Token { token_id: self.token_id, amount: (self.amount - other.amount) as u64 }),
    {
        if self.token_id != other.token_id {
            return Err(TokenError::MismatchedTokenID);
        }
        if self.amount < other.amount {
            return Err(TokenError::Underflow);
        }
        Ok(Token { token_id: self.token_id, amount: self.amount - other.amount })
    }
}

/// What a lamports amount converts to in the given token.
pub open spec fn spec_into_token(lamports: u64, price: TokenPrice, token_id: u16) -> Result<
    Token,
    TokenError,
> {
    if token_id == 0 {
        Ok(Token { token_id: 0, amount: lamports })
    } else if price.lamports_per_unit == 0 {
        Err(TokenError::InvalidPrice)
    } else {
        Ok(Token { token_id, amount: (lamports as int / price.lamports_per_unit as int) as u64 })
    }
}

impl Lamports {
    /// Converts into the given token at the given price.
    pub fn into_token(&self, price: &TokenPrice, token_id: u16) -> (r: Result<Token, TokenError>)
        ensures
            r == spec_into_token(self.0, *price, token_id),
    {
        if token_id == 0 {
            Ok(Token { token_id: 0, amount: self.0 })
        } else if price.lamports_per_unit == 0 {
            Err(TokenError::InvalidPrice)
        } else {
            Ok(Token { token_id, amount: self.0 / price.lamports_per_unit })
        }
    }
}

/// A per-amount fee in basis points.
#[derive(Clone, Copy, PartialEq, Eq, Structural, Debug)]
pub struct BasisPointFee(pub u64);

impl BasisPointFee {
    /// The fee on `amount`: `amount * rate / 10000`.
    pub fn calc(&self, amount: u64) -> (r: u64)
        requires
            self.0 * amount <= u64::MAX,
        ensures
            r == self.0 * amount / 10000,
    {
        self.0 * amount / 10000
    }
}

/// The program's fee configuration.
#[derive(Clone, Copy, PartialEq, Eq, Structural, Debug)]
pub struct ProgramFee {
    /// Cost of one transaction.
    pub lamports_per_tx: Lamports,
    /// Per storage-amount fee in basis points.
    pub base_commitment_network_fee: BasisPointFee,
    /// Per join-split-amount fee in basis points.
    pub proof_network_fee: BasisPointFee,
    /// Privacy-mining incentives, paid out to push warden rewards.
    pub base_commitment_subvention: Lamports,
    pub proof_subvention: Lamports,
    pub warden_hash_tx_reward: Lamports,
    pub warden_proof_reward: Lamports,
    /// Transaction count of one whole proof verification, the dynamic
    /// input preparation excluded.
    pub proof_base_tx_count: u64,
}

/// How many commitments one batch of the given rate carries.
pub open spec fn spec_commitments_per_batch(rate: u32) -> int {
    pow2(rate as nat)
}

pub open spec fn pow2(e: nat) -> int
    decreases e,
{
    if e == 0 {
        1
    } else {
        2 * pow2((e - 1) as nat)
    }
}

proof fn lemma_pow2_pos(e: nat)
    ensures
        pow2(e) >= 1,
    decreases e,
{
    if e > 0 {
        lemma_pow2_pos((e - 1) as nat);
    }
}

proof fn lemma_pow2_mono(e: nat, m: nat)
    requires
        e <= m,
    ensures
        pow2(e) <= pow2(m),
    decreases m,
{
    if e < m {
        lemma_pow2_mono(e, (m - 1) as nat);
        lemma_pow2_pos((m - 1) as nat);
    }
}

/// Powers of two up to the supported batching range stay small.
proof fn lemma_pow2_bound(e: nat)
    requires
        e <= 31,
    ensures
        1 <= pow2(e) <= 0x8000_0000,
{
    lemma_pow2_pos(e);
    lemma_pow2_mono(e, 31);
    assert(pow2(31) == 0x8000_0000) by {
        reveal_with_fuel(pow2, 32);
    }
}

/// The transactions one commitment batch's hashing takes: one tree node
/// per commitment plus the merged upper nodes.
pub open spec fn spec_commitment_hash_tx_count(rate: u32) -> int {
    (2 * pow2(rate as nat) - 1) * COMMITMENT_HASH_TX_PER_NODE
}

pub fn commitments_per_batch(rate: u32) -> (n: u64)
    requires
        rate <= 31,
    ensures
        n == spec_commitments_per_batch(rate),
        1 <= n <= 0x8000_0000,
{
    let mut n: u64 = 1;
    let mut k: u32 = 0;
    while k < rate
        invariant
            k <= rate <= 31,
            n == pow2(k as nat),
            1 <= n <= 0x8000_0000,
        decreases rate - k,
    {
        proof {
            lemma_pow2_bound((k + 1) as nat);
        }
        n = n * 2;
        k = k + 1;
    }
    n
}

fn commitment_hash_tx_count(rate: u32) -> (n: u64)
    requires
        rate <= 31,
    ensures
        n == spec_commitment_hash_tx_count(rate),
{
    let b = commitments_per_batch(rate);
    (2 * b - 1) * COMMITMENT_HASH_TX_PER_NODE
}

/// Ceiling division.
pub open spec fn spec_div_ceiling(a: int, b: int) -> int {
    (a + (b - 1)) / b
}

fn div_ceiling(a: u64, b: u64) -> (r: u64)
    requires
        b > 0,
        a + b - 1 <= u64::MAX,
    ensures
        r == spec_div_ceiling(a as int, b as int),
{
    (a + (b - 1)) / b
}

/// The compensation one hashing transaction earns.
pub open spec fn spec_hash_tx_compensation(fee: ProgramFee) -> int {
    fee.lamports_per_tx.0 + fee.warden_hash_tx_reward.0
}

/// The fee of hashing one commitment batch, per commitment.
pub open spec fn spec_commitment_hash_computation_fee(fee: ProgramFee, rate: u32) -> int {
    spec_div_ceiling(
        spec_commitment_hash_tx_count(rate) * spec_hash_tx_compensation(fee),
        spec_commitments_per_batch(rate),
    )
}

/// No overflow can occur in any fee formula the validity check runs.
pub open spec fn spec_fee_arith_bounded(fee: ProgramFee) -> bool {
    &&& spec_hash_tx_compensation(fee) <= u64::MAX
    &&& 62 * spec_hash_tx_compensation(fee) + 16 <= u64::MAX
    &&& fee.proof_base_tx_count * fee.lamports_per_tx.0 + 62 * spec_hash_tx_compensation(fee)
        <= u64::MAX
}

/// The validity condition: no subvention may exceed the fee it
/// subsidises, at any batching rate, and the configured proof
/// transaction count must match the engine's round counts.
pub open spec fn spec_is_valid(fee: ProgramFee) -> bool {
    forall|rate: u32|
        0 <= rate < MAX_COMMITMENT_BATCHING_RATE ==> {
            &&& fee.base_commitment_subvention.0 <= spec_commitment_hash_computation_fee(
                fee,
                rate,
            )
            &&& fee.proof_subvention.0 <= fee.proof_base_tx_count * fee.lamports_per_tx.0
                + spec_commitment_hash_computation_fee(fee, rate)
            &&& fee.proof_base_tx_count == MILLER_LOOP_ROUNDS + FINAL_EXP_ROUNDS + 2
        }
}

impl ProgramFee {
    /// Verifies that possible subventions are not too high, and that the
    /// configured transaction count matches the engine.
    pub fn is_valid(&self) -> (r: bool)
        requires
            spec_fee_arith_bounded(*self),
        ensures
            r == spec_is_valid(*self),
    {
        let mut rate: u32 = 0;
        while rate < MAX_COMMITMENT_BATCHING_RATE as u32
            invariant
                spec_fee_arith_bounded(*self),
                rate <= MAX_COMMITMENT_BATCHING_RATE,
                forall|q: u32|
                    0 <= q < rate ==> {
                        &&& self.base_commitment_subvention.0
                            <= spec_commitment_hash_computation_fee(*self, q)
                        &&& self.proof_subvention.0 <= self.proof_base_tx_count
                            * self.lamports_per_tx.0 + spec_commitment_hash_computation_fee(
                            *self,
                            q,
                        )
                        &&& self.proof_base_tx_count == MILLER_LOOP_ROUNDS + FINAL_EXP_ROUNDS + 2
                    },
            decreases MAX_COMMITMENT_BATCHING_RATE - rate,
        {
            proof {
                lemma_commitment_fee_bounds(*self, rate);
            }
            let commitment_fee = self.commitment_hash_computation_fee(rate).0;
            if self.base_commitment_subvention.0 > commitment_fee {
                return false;
            }
            let proof_fee = self.proof_base_tx_count * self.lamports_per_tx.0 + commitment_fee;
            if self.proof_subvention.0 > proof_fee {
                return false;
            }
            if self.proof_base_tx_count != (MILLER_LOOP_ROUNDS + FINAL_EXP_ROUNDS + 2) as u64 {
                return false;
            }
            rate = rate + 1;
        }
        true
    }

    /// The compensation one hashing transaction earns.
    pub fn hash_tx_compensation(&self) -> (r: Lamports)
        requires
            spec_hash_tx_compensation(*self) <= u64::MAX,
        ensures
            r.0 == spec_hash_tx_compensation(*self),
    {
        Lamports(self.lamports_per_tx.0 + self.warden_hash_tx_reward.0)
    }

    /// The fee of one base-commitment hash computation.
    pub fn base_commitment_hash_computation_fee(&self) -> (r: Lamports)
        requires
            spec_hash_tx_compensation(*self) <= u64::MAX,
            BASE_COMMITMENT_HASH_TX_COUNT * spec_hash_tx_compensation(*self) <= u64::MAX,
        ensures
            r.0 == BASE_COMMITMENT_HASH_TX_COUNT * spec_hash_tx_compensation(*self),
    {
        Lamports(BASE_COMMITMENT_HASH_TX_COUNT * self.hash_tx_compensation().0)
    }

    /// The per-commitment fee of hashing one batch at the given rate.
    pub fn commitment_hash_computation_fee(&self, min_batching_rate: u32) -> (r: Lamports)
        requires
            min_batching_rate < MAX_COMMITMENT_BATCHING_RATE,
            spec_hash_tx_compensation(*self) <= u64::MAX,
            62 * spec_hash_tx_compensation(*self) + 16 <= u64::MAX,
        ensures
            r.0 == spec_commitment_hash_computation_fee(*self, min_batching_rate),
    {
        proof {
            lemma_commitment_fee_bounds(*self, min_batching_rate);
        }
        let tx_count_total = commitment_hash_tx_count(min_batching_rate);
        let per_batch = commitments_per_batch(min_batching_rate);
        Lamports(div_ceiling(tx_count_total * self.hash_tx_compensation().0, per_batch))
    }

    /// The computation fee of one proof verification with the given
    /// dynamic input-preparation transaction count.
    pub fn proof_verification_computation_fee(&self, input_preparation_tx_count: usize) -> (r:
        Lamports)
        requires
            (input_preparation_tx_count + self.proof_base_tx_count) * self.lamports_per_tx.0
                + self.warden_proof_reward.0 <= u64::MAX,
            input_preparation_tx_count + self.proof_base_tx_count <= u64::MAX,
        ensures
            r.0 == (input_preparation_tx_count + self.proof_base_tx_count)
                * self.lamports_per_tx.0 + self.warden_proof_reward.0,
    {
        let txs = input_preparation_tx_count as u64;
        proof {
            vstd::arithmetic::mul::lemma_mul_is_distributive_add_other_way(
                self.lamports_per_tx.0 as int,
                txs as int,
                self.proof_base_tx_count as int,
            );
            vstd::arithmetic::mul::lemma_mul_is_commutative(
                txs as int + self.proof_base_tx_count as int,
                self.lamports_per_tx.0 as int,
            );
        }
        let amount = (txs + self.proof_base_tx_count) * self.lamports_per_tx.0
            + self.warden_proof_reward.0;
        Lamports(amount)
    }

    /// The whole fee of one proof verification in the requested token:
    /// computation fee plus commitment-hash fee plus the network fee on
    /// the amount, minus the subvention.  The result is exactly
    /// `spec_proof_verification_fee`: `Ok` precisely when the price
    /// conversion and every checked operation succeed.
    pub fn proof_verification_fee(
        &self,
        input_preparation_tx_count: usize,
        min_batching_rate: u32,
        amount: u64,
        token_id: u16,
        price: &TokenPrice,
    ) -> (r: Result<Token, TokenError>)
        requires
            min_batching_rate < MAX_COMMITMENT_BATCHING_RATE,
            spec_hash_tx_compensation(*self) <= u64::MAX,
            62 * spec_hash_tx_compensation(*self) + 16 <= u64::MAX,
            (input_preparation_tx_count + self.proof_base_tx_count) * self.lamports_per_tx.0
                + self.warden_proof_reward.0 <= u64::MAX,
            input_preparation_tx_count + self.proof_base_tx_count <= u64::MAX,
            self.proof_network_fee.0 * amount <= u64::MAX,
        ensures
            r == spec_proof_verification_fee(
                *self,
                input_preparation_tx_count,
                min_batching_rate,
                amount,
                token_id,
                *price,
            ),
    {
        let proof_verification_fee = match self.proof_verification_computation_fee(
            input_preparation_tx_count,
        ).into_token(price, token_id) {
            Ok(t) => t,
            Err(e) => {
                return Err(e);
            },
        };
        let commitment_hash_fee = match self.commitment_hash_computation_fee(
            min_batching_rate,
        ).into_token(price, token_id) {
            Ok(t) => t,
            Err(e) => {
                return Err(e);
            },
        };
        let network_fee = match Token::new_checked(
            token_id,
            self.proof_network_fee.calc(amount),
        ) {
            Ok(t) => t,
            Err(e) => {
                return Err(e);
            },
        };
        let subvention = match self.proof_subvention.into_token(price, token_id) {
            Ok(t) => t,
            Err(e) => {
                return Err(e);
            },
        };
        let s1 = match proof_verification_fee.try_add(&commitment_hash_fee) {
            Ok(t) => t,
            Err(e) => {
                return Err(e);
            },
        };
        let s2 = match s1.try_add(&network_fee) {
            Ok(t) => t,
            Err(e) => {
                return Err(e);
            },
        };
        s2.try_sub(&subvention)
    }
}

/// What one whole proof-verification fee works out to: the three fee
/// parts converted into the requested token and summed with checked
/// arithmetic, minus the converted subvention.
pub open spec fn spec_proof_verification_fee(
    fee: ProgramFee,
    input_preparation_tx_count: usize,
    min_batching_rate: u32,
    amount: u64,
    token_id: u16,
    price: TokenPrice,
) -> Result<Token, TokenError> {
    let computation = ((input_preparation_tx_count + fee.proof_base_tx_count)
        * fee.lamports_per_tx.0 + fee.warden_proof_reward.0) as u64;
    let commitment = spec_commitment_hash_computation_fee(fee, min_batching_rate) as u64;
    let network = (fee.proof_network_fee.0 * amount / 10000) as u64;
    if token_id != 0 && price.lamports_per_unit == 0 {
        Err(TokenError::InvalidPrice)
    } else {
        let a = spec_into_token(computation, price, token_id).unwrap().amount;
        let b = spec_into_token(commitment, price, token_id).unwrap().amount;
        let d = spec_into_token(fee.proof_subvention.0, price, token_id).unwrap().amount;
        if a + b > u64::MAX {
            Err(TokenError::Overflow)
        } else if a + b + network > u64::MAX {
            Err(TokenError::Overflow)
        } else if a + b + network < d {
            Err(TokenError::Underflow)
        } else {
            Ok(Token { token_id, amount: (a + b + network - d) as u64 })
        }
    }
}

/// The commitment-fee arithmetic stays within 64 bits at every allowed
/// rate.
proof fn lemma_commitment_fee_bounds(fee: ProgramFee, rate: u32)
    requires
        rate < MAX_COMMITMENT_BATCHING_RATE,
        spec_hash_tx_compensation(fee) <= u64::MAX,
        62 * spec_hash_tx_compensation(fee) + 16 <= u64::MAX,
    ensures
        1 <= spec_commitments_per_batch(rate) <= 8,
        2 <= spec_commitment_hash_tx_count(rate) <= 30,
        spec_commitment_hash_tx_count(rate) * spec_hash_tx_compensation(fee)
            + spec_commitments_per_batch(rate) - 1 <= u64::MAX,
        0 <= spec_commitment_hash_computation_fee(fee, rate) <= 62 * spec_hash_tx_compensation(
            fee,
        ),
{
    assert(pow2(0) == 1 && pow2(1) == 2 && pow2(2) == 4 && pow2(3) == 8);
    assert(rate == 0 || rate == 1 || rate == 2 || rate == 3);
    let b = spec_commitments_per_batch(rate);
    assert(1 <= b <= 8);
    let c = spec_hash_tx_compensation(fee);
    let t = spec_commitment_hash_tx_count(rate);
    assert(t == 2 * (2 * b - 1));
    assert(2 <= t <= 30);
    assert(0 <= t * c <= 62 * c) by (nonlinear_arith)
        requires
            2 <= t <= 30,
            c >= 0,
    ;
    assert(0 <= spec_div_ceiling(t * c, b) <= t * c) by (nonlinear_arith)
        requires
            1 <= b <= 8,
            0 <= t * c,
    ;
}

/// A fee account: address metadata and the fee configuration it holds.
#[derive(Clone, Copy, PartialEq, Eq, Structural, Debug)]
pub struct FeeAccount {
    pub pda_data: PDAAccountData,
    pub program_fee: ProgramFee,
}

} // verus!
