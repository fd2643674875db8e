//! The empty payload served when nothing better exists: the withdrawals it
//! commits and the header it carries.

use vstd::prelude::*;

use crate::fees::U256;
use crate::payload::{BuiltPayload, B256};
use crate::payload_config::{PayloadConfig, Withdrawal};

verus! {

/// A 20-byte account address.
pub type Address = [u8; 20];

/// The root of an empty Merkle-Patricia trie.
pub const EMPTY_ROOT_HASH: B256 = [
    0x56, 0xe8, 0x1f, 0x17, 0x1b, 0xcc, 0x55, 0xa6, 0xff, 0x83, 0x45, 0xe6, 0x92, 0xc0, 0xf8, 0x6e,
    0x5b, 0x48, 0xe0, 0x1b, 0x99, 0x6c, 0xad, 0xc0, 0x01, 0x62, 0x2f, 0xb5, 0xe3, 0x63, 0xb4, 0x21,
];

/// The hash of an empty list of ommers.
pub const EMPTY_OMMER_ROOT_HASH: B256 = [
    0x1d, 0xcc, 0x4d, 0xe8, 0xde, 0xc7, 0x5d, 0x7a, 0xab, 0x85, 0xb5, 0x67, 0xb6, 0xcc, 0xd4, 0x1a,
    0xd3, 0x12, 0x45, 0x1b, 0x94, 0x8a, 0x74, 0x13, 0xf0, 0xa1, 0x42, 0xfd, 0x40, 0xd4, 0x93, 0x47,
];

/// The nonce of every proof-of-stake block.
pub const BEACON_NONCE: u64 = 0;

/// Represents the outcome of committing withdrawals. Before Shanghai both
/// parts are `None`.
#[derive(Debug)]
pub struct WithdrawalsOutcome<W> {
    /// Committed withdrawals, if any.
    pub withdrawals: Option<Vec<W>>,
    /// Withdrawals root, if any.
    pub withdrawals_root: Option<B256>,
}

impl<W> WithdrawalsOutcome<W> {
    /// No withdrawals pre Shanghai.
    pub fn pre_shanghai() -> (r: Self)
        ensures
            r.withdrawals is None,
            r.withdrawals_root is None,
    {
        WithdrawalsOutcome { withdrawals: None, withdrawals_root: None }
    }

    /// No withdrawals: an empty list under the empty-trie root.
    pub fn empty() -> (r: Self)
        ensures
            r.withdrawals matches Some(w) && w@.len() == 0,
            r.withdrawals_root == Some(EMPTY_ROOT_HASH),
    {
        WithdrawalsOutcome { withdrawals: Some(Vec::new()), withdrawals_root: Some(EMPTY_ROOT_HASH) }
    }
}

/// How withdrawals are committed to a new block.
#[derive(Debug)]
pub enum WithdrawalsStep<W> {
    /// Nothing to apply; this is the outcome.
    Done(WithdrawalsOutcome<W>),
    /// Apply the balance increments of these withdrawals and compute their root.
    Apply(Vec<W>),
}

/// Decides how to commit `withdrawals`: nothing before Shanghai, the empty
/// outcome for an empty list, and otherwise the list to apply.
pub fn commit_withdrawals<W>(shanghai_active: bool, withdrawals: Vec<W>) -> (r: WithdrawalsStep<W>)
    ensures
        !shanghai_active ==> (r matches WithdrawalsStep::Done(o) && o.withdrawals is None
            && o.withdrawals_root is None),
        shanghai_active && withdrawals@.len() == 0 ==> (r matches WithdrawalsStep::Done(o)
            && o.withdrawals matches Some(w) && w@.len() == 0 && o.withdrawals_root == Some(EMPTY_ROOT_HASH)),
        shanghai_active && withdrawals@.len() > 0 ==> (r matches WithdrawalsStep::Apply(w) && w == withdrawals),
{
    if !shanghai_active {
        return WithdrawalsStep::Done(WithdrawalsOutcome::pre_shanghai());
    }
    if withdrawals.len() == 0 {
        return WithdrawalsStep::Done(WithdrawalsOutcome::empty());
    }
    WithdrawalsStep::Apply(withdrawals)
}

/// The parts of the pre-derived block environment that the empty payload reads.
#[derive(Clone, Copy, Debug)]
pub struct BlockEnv {
    pub number: U256,
    pub coinbase: Address,
    pub gas_limit: U256,
    pub basefee: U256,
}

/// A block header.
#[derive(Clone, Debug)]
pub struct Header {
    pub parent_hash: B256,
    pub ommers_hash: B256,
    pub beneficiary: Address,
    pub state_root: B256,
    pub transactions_root: B256,
    pub receipts_root: B256,
    pub withdrawals_root: Option<B256>,
    pub logs_bloom: [u8; 256],
    pub difficulty: U256,
    pub number: u64,
    pub gas_limit: u64,
    pub gas_used: u64,
    pub timestamp: u64,
    pub mix_hash: B256,
    pub nonce: u64,
    pub base_fee_per_gas: Option<u64>,
    pub blob_gas_used: Option<u64>,
    pub excess_blob_gas: Option<u64>,
    pub parent_beacon_block_root: Option<B256>,
    pub extra_data: Vec<u8>,
}

/// The number of the block being built, as the environment gives it.
pub fn env_block_number(env: &BlockEnv) -> (r: u64)
    requires
        env.number@ <= u64::MAX,
    ensures
        r as nat == env.number@,
{
    match env.number.to_u64() {
        Some(n) => n,
        None => 0,
    }
}

/// The header of the empty block on `parent_hash`: empty ommer, transaction
/// and receipt roots, no gas used, zero difficulty, the beacon nonce, the
/// environment's beneficiary, base fee and gas limit (capped at `u64::MAX`),
/// and the attributes' timestamp, randomness and parent beacon root.
pub fn empty_block_header(
    parent_hash: B256,
    parent_number: u64,
    env: &BlockEnv,
    timestamp: u64,
    prev_randao: B256,
    parent_beacon_block_root: Option<B256>,
    extra_data: Vec<u8>,
    state_root: B256,
    withdrawals_root: Option<B256>,
) -> (r: Header)
    requires
        parent_number < u64::MAX,
        env.basefee@ <= u64::MAX,
    ensures
        r.parent_hash == parent_hash,
        r.ommers_hash == EMPTY_OMMER_ROOT_HASH,
        r.beneficiary == env.coinbase,
        r.state_root == state_root,
        r.transactions_root == EMPTY_ROOT_HASH,
        r.receipts_root == EMPTY_ROOT_HASH,
        r.withdrawals_root == withdrawals_root,
        forall|i: int| 0 <= i < 256 ==> r.logs_bloom[i] == 0,
        r.difficulty@ == 0,
        r.number == parent_number + 1,
        r.gas_limit as nat == if env.gas_limit@ > u64::MAX { u64::MAX as nat } else { env.gas_limit@ },
        r.gas_used == 0,
        r.timestamp == timestamp,
        r.mix_hash == prev_randao,
        r.nonce == BEACON_NONCE,
        r.base_fee_per_gas matches Some(f) && f as nat == env.basefee@,
        r.blob_gas_used is None,
        r.excess_blob_gas is None,
        r.parent_beacon_block_root == parent_beacon_block_root,
        r.extra_data == extra_data,
{
    let base_fee: u64 = match env.basefee.to_u64() {
        Some(f) => f,
        None => 0,
    };
    Header {
        parent_hash,
        ommers_hash: EMPTY_OMMER_ROOT_HASH,
        beneficiary: env.coinbase,
        state_root,
        transactions_root: EMPTY_ROOT_HASH,
        receipts_root: EMPTY_ROOT_HASH,
        withdrawals_root,
        logs_bloom: [0u8; 256],
        difficulty: U256::zero(),
        number: parent_number + 1,
        gas_limit: env.gas_limit.saturating_to_u64(),
        gas_used: 0,
        timestamp,
        mix_hash: prev_randao,
        nonce: BEACON_NONCE,
        base_fee_per_gas: Some(base_fee),
        blob_gas_used: None,
        excess_blob_gas: None,
        parent_beacon_block_root,
        extra_data,
    }
}

/// Whether `h` is the header of the empty payload of job configuration `c`,
/// with the given state and withdrawals roots: on the parent, with the job's
/// environment, attributes and extra data, empty ommer, transaction and
/// receipt roots, no gas used, zero difficulty and the beacon nonce.
pub open spec fn is_empty_payload_header<Block, Cfg, Spec>(
    h: Header,
    c: PayloadConfig<Block, Cfg, Spec>,
    state_root: B256,
    withdrawals_root: Option<B256>,
) -> bool {
    &&& h.parent_hash == c.parent_hash
    &&& h.number == c.parent_number + 1
    &&& h.timestamp == c.attributes.timestamp
    &&& h.mix_hash == c.attributes.prev_randao
    &&& h.parent_beacon_block_root == c.attributes.parent_beacon_block_root
    &&& h.extra_data@ == c.extra_data@
    &&& h.beneficiary == c.initialized_block_env.coinbase
    &&& h.state_root == state_root
    &&& h.withdrawals_root == withdrawals_root
    &&& h.transactions_root == EMPTY_ROOT_HASH
    &&& h.receipts_root == EMPTY_ROOT_HASH
    &&& h.ommers_hash == EMPTY_OMMER_ROOT_HASH
    &&& h.gas_used == 0
    &&& h.difficulty@ == 0
    &&& h.nonce == BEACON_NONCE
    &&& h.base_fee_per_gas matches Some(f) && f as nat == c.initialized_block_env.basefee@
    &&& h.gas_limit as nat == if c.initialized_block_env.gas_limit@ > u64::MAX {
        u64::MAX as nat
    } else {
        c.initialized_block_env.gas_limit@
    }
    &&& h.blob_gas_used is None
    &&& h.excess_blob_gas is None
}

/// The header of the empty payload of a job: on its parent, with the job's
/// environment, attributes and extra data, and the state and withdrawals
/// roots computed for it.
pub fn empty_payload_header<Block, Cfg, Spec>(
    config: &PayloadConfig<Block, Cfg, Spec>,
    state_root: B256,
    withdrawals_root: Option<B256>,
) -> (r: Header)
    requires
        config.parent_number < u64::MAX,
        config.initialized_block_env.basefee@ <= u64::MAX,
    ensures
        is_empty_payload_header(r, *config, state_root, withdrawals_root),
{
    empty_block_header(
        config.parent_hash,
        config.parent_number,
        &config.initialized_block_env,
        config.attributes.timestamp,
        config.attributes.prev_randao,
        config.attributes.parent_beacon_block_root,
        config.extra_data(),
        state_root,
        withdrawals_root,
    )
}

/// A block with no transactions and no ommers: only a header and, from
/// Shanghai on, the committed withdrawals.
#[derive(Clone, Debug)]
pub struct EmptyBlock {
    pub header: Header,
    pub withdrawals: Option<Vec<Withdrawal>>,
}

/// The unsealed empty block of a job, from the state root computed over its
/// parent and the outcome of committing its withdrawals.
pub fn empty_block<Block, Cfg, Spec>(
    config: &PayloadConfig<Block, Cfg, Spec>,
    state_root: B256,
    withdrawals: WithdrawalsOutcome<Withdrawal>,
) -> (r: EmptyBlock)
    requires
        config.parent_number < u64::MAX,
        config.initialized_block_env.basefee@ <= u64::MAX,
    ensures
        is_empty_payload_header(r.header, *config, state_root, withdrawals.withdrawals_root),
        r.withdrawals == withdrawals.withdrawals,
{
    let header = empty_payload_header(config, state_root, withdrawals.withdrawals_root);
    EmptyBlock { header, withdrawals: withdrawals.withdrawals }
}

/// The empty payload of a job: the sealed empty block, under the job's
/// payload id, with zero fees.
pub fn empty_payload<Block, Cfg, Spec, B>(config: &PayloadConfig<Block, Cfg, Spec>, sealed_block: B) -> (r: BuiltPayload<B>)
    ensures
        r.id == config.attributes.id,
        r.fees@ == 0,
        r.block == sealed_block,
{
    BuiltPayload::new(config.payload_id(), sealed_block, U256::zero())
}

} // verus!
