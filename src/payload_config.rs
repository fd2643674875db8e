//! The attributes the consensus layer sends for a slot, and the fixed
//! configuration of a job built from them.

use std::sync::Arc;
use vstd::prelude::*;

use crate::empty::{Address, BlockEnv};
use crate::payload::{PayloadId, B256};

verus! {

/// A validator withdrawal.
#[derive(Clone, Copy, Debug, PartialEq, Eq)]
pub struct Withdrawal {
    pub index: u64,
    pub validator_index: u64,
    pub address: Address,
    pub amount: u64,
}

/// What the consensus layer asks a payload to be built on and with.
#[derive(Clone, Debug)]
pub struct PayloadBuilderAttributes {
    pub id: PayloadId,
    pub parent: B256,
    pub timestamp: u64,
    pub suggested_fee_recipient: Address,
    pub prev_randao: B256,
    pub withdrawals: Vec<Withdrawal>,
    pub parent_beacon_block_root: Option<B256>,
}

/// The fixed configuration of a job: the sealed parent block (of type
/// `Block`, with its hash and number), the environment derived from it and
/// the attributes (`Cfg` is the chain configuration of the EVM), the extra
/// data, the attributes, and the chain specification `Spec`.
#[derive(Debug)]
pub struct PayloadConfig<Block, Cfg, Spec> {
    pub initialized_block_env: BlockEnv,
    pub initialized_cfg: Cfg,
    pub parent_block: Arc<Block>,
    pub parent_hash: B256,
    pub parent_number: u64,
    pub extra_data: Vec<u8>,
    pub attributes: PayloadBuilderAttributes,
    pub chain_spec: Arc<Spec>,
}

impl<Block, Cfg, Spec> PayloadConfig<Block, Cfg, Spec> {
    /// A configuration on the sealed `parent_block`, whose hash and number are
    /// given, with the environment already derived from it and the attributes.
    pub fn new(
        parent_block: Arc<Block>,
        parent_hash: B256,
        parent_number: u64,
        extra_data: Vec<u8>,
        attributes: PayloadBuilderAttributes,
        chain_spec: Arc<Spec>,
        initialized_cfg: Cfg,
        initialized_block_env: BlockEnv,
    ) -> (r: Self)
        ensures
            r.parent_block == parent_block,
            r.parent_hash == parent_hash,
            r.parent_number == parent_number,
            r.extra_data == extra_data,
            r.attributes == attributes,
            r.chain_spec == chain_spec,
            r.initialized_cfg == initialized_cfg,
            r.initialized_block_env == initialized_block_env,
    {
        PayloadConfig {
            initialized_block_env,
            initialized_cfg,
            parent_block,
            parent_hash,
            parent_number,
            extra_data,
            attributes,
            chain_spec,
        }
    }

    /// Returns a copy of the extra data bytes.
    pub fn extra_data(&self) -> (r: Vec<u8>)
        ensures
            r@ == self.extra_data@,
    {
        let mut out: Vec<u8> = Vec::new();
        let mut i: usize = 0;
        while i < self.extra_data.len()
            invariant
                0 <= i <= self.extra_data@.len(),
                out@ == self.extra_data@.subrange(0, i as int),
            decreases self.extra_data@.len() - i,
        {
            out.push(self.extra_data[i]);
            i = i + 1;
            proof {
                assert(self.extra_data@.subrange(0, i as int) == self.extra_data@.subrange(0, i - 1).push(
                    self.extra_data@[i - 1],
                ));
            }
        }
        assert(self.extra_data@.subrange(0, self.extra_data@.len() as int) == self.extra_data@);
        out
    }

    /// Returns the payload id.
    pub fn payload_id(&self) -> (r: PayloadId)
        ensures
            r == self.attributes.id,
    {
        self.attributes.id
    }
}

} // verus!
