use std::sync::Arc;

use payload_basic::builder::{BuildArguments, PayloadBuilder};
use payload_basic::cancel::Cancelled;
use payload_basic::empty::{empty_block, empty_payload, empty_payload_header, BlockEnv, WithdrawalsOutcome, EMPTY_ROOT_HASH};
use payload_basic::fees::U256;
use payload_basic::payload::{BuildOutcome, PayloadBuilderError};
use payload_basic::payload_config::{PayloadBuilderAttributes, PayloadConfig, Withdrawal};

fn attributes() -> PayloadBuilderAttributes {
    PayloadBuilderAttributes {
        id: [7; 8],
        parent: [2; 32],
        timestamp: 1_700_000_012,
        suggested_fee_recipient: [1; 20],
        prev_randao: [3; 32],
        withdrawals: vec![Withdrawal { index: 0, validator_index: 1, address: [4; 20], amount: 5 }],
        parent_beacon_block_root: None,
    }
}

fn config() -> PayloadConfig<&'static str, (), ()> {
    let env = BlockEnv {
        number: U256::from_u128(101),
        coinbase: [1; 20],
        gas_limit: U256::from_u128(30_000_000),
        basefee: U256::from_u128(9),
    };
    PayloadConfig::new(Arc::new("parent"), [2; 32], 100, vec![0xaa], attributes(), Arc::new(()), (), env)
}

#[test]
fn payload_config_accessors() {
    let c = config();
    assert_eq!(c.payload_id(), [7; 8]);
    assert_eq!(c.extra_data(), vec![0xaa]);
    assert_eq!(*c.parent_block, "parent");
}

#[test]
fn empty_payload_header_from_config() {
    let c = config();
    let h = empty_payload_header(&c, [8; 32], Some(EMPTY_ROOT_HASH));
    assert_eq!(h.parent_hash, c.attributes.parent);
    assert_eq!(h.number, 101);
    assert_eq!(h.gas_used, 0);
    assert_eq!(h.transactions_root, EMPTY_ROOT_HASH);
    assert_eq!(h.gas_limit, 30_000_000);
    assert_eq!(h.base_fee_per_gas, Some(9));
    assert_eq!(h.timestamp, 1_700_000_012);
    assert_eq!(h.extra_data, vec![0xaa]);
    assert_eq!(h.withdrawals_root, Some(EMPTY_ROOT_HASH));
    assert_eq!(h.state_root, [8; 32]);
}

#[derive(Clone)]
struct FixedBuilder;

impl PayloadBuilder<(), (), (), (), Vec<u8>> for FixedBuilder {
    fn try_build(&self, args: BuildArguments<(), (), (), (), Vec<u8>>) -> Result<BuildOutcome<(), Vec<u8>>, PayloadBuilderError> {
        if args.cancel.is_cancelled() {
            return Ok(BuildOutcome::Cancelled);
        }
        Ok(BuildOutcome::Aborted { fees: U256::zero(), cached_reads: args.cached_reads })
    }
}

#[test]
fn builder_has_no_missing_payload_by_default() {
    let args = BuildArguments::new((), (), vec![1], (), Cancelled::new(), None);
    assert!(FixedBuilder.on_missing_payload(args).is_none());
    let cancel = Cancelled::new();
    cancel.cancel();
    let args = BuildArguments::new((), (), vec![1], (), cancel, None);
    assert!(matches!(FixedBuilder.try_build(args), Ok(BuildOutcome::Cancelled)));
    let args = BuildArguments::new((), (), vec![1], (), Cancelled::new(), None);
    assert!(matches!(FixedBuilder.try_build(args), Ok(BuildOutcome::Aborted { cached_reads, .. }) if cached_reads == vec![1]));
}

#[test]
fn empty_block_and_payload_from_config() {
    let c = config();
    let block = empty_block(&c, [8; 32], WithdrawalsOutcome::empty());
    assert_eq!(block.header.parent_hash, [2; 32]);
    assert_eq!(block.header.number, 101);
    assert_eq!(block.header.gas_used, 0);
    assert_eq!(block.header.transactions_root, EMPTY_ROOT_HASH);
    assert_eq!(block.header.withdrawals_root, Some(EMPTY_ROOT_HASH));
    assert_eq!(block.withdrawals, Some(vec![]));
    let p = empty_payload(&c, "sealed");
    assert_eq!(p.id, [7; 8]);
    assert_eq!(p.fees, U256::zero());
    assert_eq!(p.block, "sealed");
}
