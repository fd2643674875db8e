//! Built payloads, the outcome of one build attempt, and the errors of the job.

use vstd::prelude::*;

use crate::fees::U256;

verus! {

/// The identifier the consensus layer gave the payload.
pub type PayloadId = [u8; 8];

/// A 32-byte hash.
pub type B256 = [u8; 32];

/// A sealed block of type `B` with its accumulated fee total.
#[derive(Debug)]
pub struct BuiltPayload<B> {
    pub id: PayloadId,
    pub block: B,
    pub fees: U256,
}

impl<B> BuiltPayload<B> {
    /// A payload for `block`, with the given fee total.
    pub fn new(id: PayloadId, block: B, fees: U256) -> (r: Self)
        ensures
            r.id == id,
            r.block == block,
            r.fees == fees,
    {
        BuiltPayload { id, block, fees }
    }

    /// The fee total of the payload.
    pub fn fees(&self) -> (r: U256)
        ensures
            r == self.fees,
    {
        self.fees
    }
}

/// The possible outcomes of a payload building attempt. The cached reads come
/// back whenever the attempt ran to the end, so that the job can reuse them.
#[derive(Debug)]
pub enum BuildOutcome<B, C> {
    /// A block with strictly higher fees than the best one the attempt was given.
    Better { payload: BuiltPayload<B>, cached_reads: C },
    /// The block did not beat the best one; only its fee total is kept.
    Aborted { fees: U256, cached_reads: C },
    /// The attempt saw its cancellation flag set and stopped.
    Cancelled,
}

/// Errors of the payload job.
#[derive(Debug)]
pub enum PayloadBuilderError {
    /// The parent block of the attributes was not found.
    MissingParentBlock(B256),
    /// A build task dropped its result channel before sending.
    ChannelClosed,
    /// A failure of the state provider or the EVM, with its message.
    Internal(String),
}

/// Whether the job should keep running after it was resolved.
#[derive(Clone, Copy, Debug, PartialEq, Eq, Structural)]
pub enum KeepPayloadJobAlive {
    Yes,
    No,
}

/// Whether fees `new_fees` beat the best payload so far: always when there is
/// none, else only when strictly higher.
pub open spec fn better_than(best: Option<U256>, new_fees: U256) -> bool {
    match best {
        Some(b) => new_fees@ > b@,
        None => true,
    }
}

/// Checks if a payload with fees `new_fees` is better than the current best.
pub fn is_better_payload<B>(best_payload: Option<&BuiltPayload<B>>, new_fees: U256) -> (r: bool)
    ensures
        r == better_than(
            match best_payload {
                Some(p) => Some(p.fees),
                None => None,
            },
            new_fees,
        ),
{
    match best_payload {
        Some(best) => new_fees.gt(&best.fees),
        None => true,
    }
}

/// With no best payload any fees are better, and a payload never beats fees
/// equal to its own.
pub proof fn lemma_is_better_payload(f: U256, p_fees: U256)
    ensures
        better_than(None, f),
        !better_than(Some(p_fees), p_fees),
{
}

} // verus!
