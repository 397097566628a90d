//! Storage bookkeeping around the engine: the commitment tree's fill
//! state and the queue of commitments waiting to be hashed into it.
//! These decide when the active tree must be closed; the account
//! plumbing around them lives with the host.

use vstd::prelude::*;

use crate::errors::ComputationError;
use crate::fee::{commitments_per_batch, spec_commitments_per_batch};

verus! {

/// Commitments one Merkle tree can hold.
pub const MT_COMMITMENT_COUNT: usize = 1048576;

/// Address metadata of a program-derived account.
#[derive(Clone, Copy, PartialEq, Eq, Structural, Debug)]
pub struct PDAAccountData {
    pub bump_seed: u8,
    pub version: u8,
}

/// The kinds of single-instance program accounts.
#[derive(Clone, Copy, PartialEq, Eq, Structural, Debug)]
pub enum SingleInstancePDAAccountKind {
    CommitmentHashingAccount,
    CommitmentQueueAccount,
    PoolAccount,
    FeeCollectorAccount,
    StorageAccount,
    VKeyAccountManangerAccount,
}

/// The kinds of multi-instance program accounts.
#[derive(Clone, Copy, PartialEq, Eq, Structural, Debug)]
pub enum MultiInstancePDAAccountKind {
    NullifierAccount,
}

/// A request to hash one commitment into the active tree.
#[derive(Clone, Copy, PartialEq, Eq, Debug)]
pub struct CommitmentHashRequest {
    pub min_batching_rate: u32,
    pub commitment: [u8; 32],
    pub fee_version: u32,
}

/// The storage account's fill state: how many trees were closed and how
/// many commitments the active one holds.
#[derive(Clone, Copy, PartialEq, Eq, Structural, Debug)]
pub struct StorageAccount {
    pub trees_count: u32,
    pub next_commitment_ptr: u32,
}

impl StorageAccount {
    pub fn new() -> (r: Self)
        ensures
            r.trees_count == 0 && r.next_commitment_ptr == 0,
    {
        StorageAccount { trees_count: 0, next_commitment_ptr: 0 }
    }

    pub fn get_next_commitment_ptr(&self) -> (r: u32)
        ensures
            r == self.next_commitment_ptr,
    {
        self.next_commitment_ptr
    }

    pub fn set_next_commitment_ptr(&mut self, ptr: u32)
        ensures
            *final(self) == (StorageAccount { next_commitment_ptr: ptr, ..*old(self) }),
    {
        self.next_commitment_ptr = ptr;
    }

    /// Whether the active tree holds its full commitment count.
    pub fn is_full(&self) -> (r: bool)
        ensures
            r == (self.next_commitment_ptr >= MT_COMMITMENT_COUNT),
    {
        self.next_commitment_ptr as usize >= MT_COMMITMENT_COUNT
    }
}

/// The queue of commitments waiting to be hashed, oldest first.
pub struct CommitmentQueue {
    pub entries: Vec<CommitmentHashRequest>,
}

/// The batch the queue's head announces: the head's batching rate fixes
/// the batch size.
pub open spec fn spec_next_batch_len(q: CommitmentQueue) -> int {
    spec_commitments_per_batch(q.entries@[0].min_batching_rate)
}

/// Whether a whole batch is available.
pub open spec fn spec_has_full_batch(q: CommitmentQueue) -> bool {
    &&& q.entries@.len() > 0
    &&& q.entries@[0].min_batching_rate <= 31
    &&& spec_next_batch_len(q) <= q.entries@.len()
}

impl CommitmentQueue {
    pub fn new() -> (r: Self)
        ensures
            r.entries@.len() == 0,
    {
        CommitmentQueue { entries: Vec::new() }
    }

    pub fn enqueue(&mut self, request: CommitmentHashRequest) -> (r: Result<
        (),
        ComputationError,
    >)
        ensures
            r is Ok,
            final(self).entries@ == old(self).entries@.push(request),
    {
        self.entries.push(request);
        Ok(())
    }

    /// The next batch and its rate: as many requests as the head's rate
    /// demands.  Fails when the queue holds no whole batch.
    pub fn next_batch(&self) -> (r: Result<(Vec<CommitmentHashRequest>, u32), ComputationError>)
        ensures
            spec_has_full_batch(*self) <==> r is Ok,
            r is Ok ==> {
                let (batch, rate) = r.unwrap();
                &&& rate == self.entries@[0].min_batching_rate
                &&& batch@.len() == spec_next_batch_len(*self)
                &&& batch@.len() <= 0x8000_0000
                &&& batch@ == self.entries@.take(spec_next_batch_len(*self))
            },
            r is Err ==> r == Err::<(Vec<CommitmentHashRequest>, u32), ComputationError>(
                ComputationError::InvalidQueueAccess,
            ),
    {
        if self.entries.len() == 0 {
            return Err(ComputationError::InvalidQueueAccess);
        }
        let rate = self.entries[0].min_batching_rate;
        if rate > 31 {
            return Err(ComputationError::InvalidQueueAccess);
        }
        let need64 = commitments_per_batch(rate);
        if need64 > self.entries.len() as u64 {
            return Err(ComputationError::InvalidQueueAccess);
        }
        let need = need64 as usize;
        let mut batch: Vec<CommitmentHashRequest> = Vec::new();
        let mut i: usize = 0;
        while i < need
            invariant
                i <= need,
                need <= self.entries@.len(),
                batch@ == self.entries@.take(i as int),
            decreases need - i,
        {
            batch.push(self.entries[i]);
            proof {
                assert(batch@ =~= self.entries@.take(i + 1));
            }
            i = i + 1;
        }
        Ok((batch, rate))
    }
}

/// Whether the active tree must be treated as full: either it holds its
/// whole commitment count, or the next waiting batch would not fit any
/// more.
pub open spec fn spec_is_mt_full(storage: StorageAccount, queue: CommitmentQueue) -> bool {
    ||| storage.next_commitment_ptr >= MT_COMMITMENT_COUNT
    ||| storage.next_commitment_ptr + spec_next_batch_len(queue) >= MT_COMMITMENT_COUNT
}

/// Decides whether the active tree is full for the purpose of closing
/// it; fails exactly when the queue holds no whole batch while the tree
/// still has room.
pub fn is_mt_full(storage: &StorageAccount, queue: &CommitmentQueue) -> (r: Result<
    bool,
    ComputationError,
>)
    ensures
        storage.next_commitment_ptr >= MT_COMMITMENT_COUNT ==> r == Ok::<bool, ComputationError>(
            true,
        ),
        storage.next_commitment_ptr < MT_COMMITMENT_COUNT && !spec_has_full_batch(*queue) ==> r
            is Err,
        storage.next_commitment_ptr < MT_COMMITMENT_COUNT && spec_has_full_batch(*queue) ==> r
            == Ok::<bool, ComputationError>(spec_is_mt_full(*storage, *queue)),
{
    if storage.is_full() {
        return Ok(true);
    }
    let commitments_count = storage.get_next_commitment_ptr() as usize;
    let batch = match queue.next_batch() {
        Ok(b) => b,
        Err(e) => {
            return Err(e);
        },
    };
    let queue_len = batch.0.len();
    if commitments_count + queue_len >= MT_COMMITMENT_COUNT {
        return Ok(true);
    }
    Ok(false)
}

} // verus!
