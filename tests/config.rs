use std::path::PathBuf;

use payload_basic::config::{duration_until, duration_until_at, BasicPayloadJobGeneratorConfig};
use payload_basic::empty::{commit_withdrawals, empty_block_header, env_block_number, BlockEnv, WithdrawalsOutcome, WithdrawalsStep, EMPTY_OMMER_ROOT_HASH, EMPTY_ROOT_HASH};
use payload_basic::fees::U256;
use payload_basic::generator::{parent_source, require_parent, BasicPayloadJobGenerator, ParentSource, PayloadTaskGuard};
use payload_basic::payload::PayloadBuilderError;
use payload_basic::span::Span;
use payload_basic::tx_lookup::{TxLookupStore, TxNumberLookup};

fn secs(s: u64) -> Span {
    Span::from_secs(s)
}

#[test]
fn default_config() {
    let c = BasicPayloadJobGeneratorConfig::default();
    let mut expected = vec![0x80 + 20];
    expected.extend_from_slice(b"reth/v0.1.0-alpha.13");
    assert_eq!(c.extradata, expected);
    assert_eq!(c.max_gas_limit, 30_000_000);
    assert_eq!(c.interval, secs(1));
    assert_eq!(c.deadline, secs(12));
    assert_eq!(c.max_payload_tasks, 3);
}

#[test]
fn config_setters() {
    let c = BasicPayloadJobGeneratorConfig::default()
        .interval(Span { secs: 0, nanos: 500_000_000 })
        .deadline(secs(2))
        .max_payload_tasks(1)
        .extradata(vec![1, 2])
        .max_gas_limit(7);
    assert_eq!(c.interval, Span { secs: 0, nanos: 500_000_000 });
    assert_eq!(c.deadline, secs(2));
    assert_eq!(c.max_payload_tasks, 1);
    assert_eq!(c.extradata, vec![1, 2]);
    assert_eq!(c.max_gas_limit, 7);
}

#[test]
fn span_arithmetic() {
    let a = Span { secs: 3, nanos: 200 };
    let b = Span { secs: 1, nanos: 900_000_000 };
    assert_eq!(a.saturating_sub(&b), Span { secs: 1, nanos: 100_000_200 });
    assert_eq!(b.saturating_sub(&a), Span::zero());
    assert_eq!(a.add(&b), Span { secs: 4, nanos: 900_000_200 });
    assert_eq!(b.mul(3), Span { secs: 5, nanos: 700_000_000 });
    assert_eq!(a.min(&b), b);
    assert!(b.le(&a));
}

#[test]
fn duration_until_future_and_past() {
    let now = Span { secs: 1_000, nanos: 250_000_000 };
    assert_eq!(duration_until_at(1_010, now), Span { secs: 9, nanos: 750_000_000 });
    assert_eq!(duration_until_at(1_000, now), Span::zero());
    assert_eq!(duration_until_at(0, now), Span::zero());
}

#[test]
fn duration_until_wall_clock() {
    assert_eq!(duration_until(0), Span::zero());
    let d = duration_until(u64::MAX / 2);
    assert!(d.secs > 0);
}

#[test]
fn clock_skew_gives_base_deadline() {
    let c = BasicPayloadJobGeneratorConfig::default();
    let now = secs(20_000);
    assert_eq!(duration_until_at(10_000, now), Span::zero());
    assert_eq!(c.max_job_duration_at(10_000, now), secs(12));
}

#[test]
fn job_duration_adds_time_until_slot() {
    let c = BasicPayloadJobGeneratorConfig::default();
    assert_eq!(c.max_job_duration_at(1_010, secs(1_000)), secs(22));
}

#[test]
fn job_duration_clamped_to_four_deadlines() {
    let c = BasicPayloadJobGeneratorConfig::default();
    assert_eq!(c.max_job_duration_at(1_000_000, secs(1)), secs(48));
    let d = c.max_job_duration(u64::MAX / 2);
    assert_eq!(d, secs(48));
}

#[test]
fn permit_bound_with_one_slot() {
    let guard = PayloadTaskGuard::new(1);
    let first = guard.0.try_acquire().expect("one slot is free");
    assert!(guard.0.try_acquire().is_err());
    drop(first);
    assert!(guard.0.try_acquire().is_ok());
    assert_eq!(PayloadTaskGuard::new(3).0.available_permits(), 3);
}

#[test]
fn generator_holds_configured_permits() {
    let config = BasicPayloadJobGeneratorConfig::default().max_payload_tasks(2);
    let g = BasicPayloadJobGenerator::with_builder((), (), (), config, std::sync::Arc::new(()), ());
    assert_eq!(g.payload_task_guard.0.available_permits(), 2);
    assert_eq!(g.config.max_payload_tasks, 2);
    assert_eq!(g.max_job_duration(0), secs(12));
}

#[test]
fn zero_parent_uses_latest_block() {
    assert_eq!(parent_source([0; 32]), ParentSource::Latest);
    let mut h = [0u8; 32];
    h[31] = 1;
    assert_eq!(parent_source(h), ParentSource::ByHash(h));
}

#[test]
fn missing_parent_is_an_error() {
    let h = [5u8; 32];
    assert!(matches!(require_parent::<u8>(h, None), Err(PayloadBuilderError::MissingParentBlock(x)) if x == h));
    assert!(matches!(require_parent(h, Some(3u8)), Ok(3)));
}

#[test]
fn withdrawals_before_and_after_shanghai() {
    match commit_withdrawals(false, vec![1u8]) {
        WithdrawalsStep::Done(o) => {
            assert!(o.withdrawals.is_none());
            assert!(o.withdrawals_root.is_none());
        }
        WithdrawalsStep::Apply(_) => panic!("nothing applies before Shanghai"),
    }
    match commit_withdrawals::<u8>(true, vec![]) {
        WithdrawalsStep::Done(o) => {
            assert_eq!(o.withdrawals, Some(vec![]));
            assert_eq!(o.withdrawals_root, Some(EMPTY_ROOT_HASH));
        }
        WithdrawalsStep::Apply(_) => panic!("an empty list has nothing to apply"),
    }
    assert!(matches!(commit_withdrawals(true, vec![4u8, 5]), WithdrawalsStep::Apply(w) if w == vec![4, 5]));
    assert!(WithdrawalsOutcome::<u8>::pre_shanghai().withdrawals.is_none());
}

#[test]
fn empty_block_header_fields() {
    let env = BlockEnv {
        number: U256::from_u128(11),
        coinbase: [9; 20],
        gas_limit: U256::from_halves(1, 0),
        basefee: U256::from_u128(7),
    };
    assert_eq!(env_block_number(&env), 11);
    let parent = [3u8; 32];
    let h = empty_block_header(parent, 10, &env, 1_700, [4; 32], Some([6; 32]), vec![1], [8; 32], None);
    assert_eq!(h.parent_hash, parent);
    assert_eq!(h.number, 11);
    assert_eq!(h.gas_used, 0);
    assert_eq!(h.transactions_root, EMPTY_ROOT_HASH);
    assert_eq!(h.receipts_root, EMPTY_ROOT_HASH);
    assert_eq!(h.ommers_hash, EMPTY_OMMER_ROOT_HASH);
    assert_eq!(h.gas_limit, u64::MAX);
    assert_eq!(h.base_fee_per_gas, Some(7));
    assert_eq!(h.beneficiary, [9; 20]);
    assert_eq!(h.mix_hash, [4; 32]);
    assert_eq!(h.timestamp, 1_700);
    assert_eq!(h.difficulty, U256::zero());
    assert_eq!(h.extra_data, vec![1]);
    assert_eq!(h.parent_beacon_block_root, Some([6; 32]));
}

#[test]
fn u256_conversions() {
    assert_eq!(U256::from_u128(5).to_u64(), Some(5));
    assert_eq!(U256::from_u128(u64::MAX as u128 + 1).to_u64(), None);
    assert_eq!(U256::from_halves(1, 0).saturating_to_u64(), u64::MAX);
}

#[test]
fn lookup_compact_round_trip() {
    let x = TxNumberLookup { hash: [0xab; 32], number: 0x0102 };
    let mut buf = Vec::new();
    let len = x.to_compact(&mut buf);
    assert_eq!(len, 34);
    assert_eq!(&buf[32..], &[1, 2]);
    buf.push(0xff);
    let (y, rest) = TxNumberLookup::from_compact(&buf, len);
    assert_eq!(y, x);
    assert_eq!(rest, vec![0xff]);
}

#[test]
fn lookup_compact_zero_number() {
    let x = TxNumberLookup { hash: [1; 32], number: 0 };
    let mut buf = vec![];
    assert_eq!(x.to_compact(&mut buf), 32);
    let (y, rest) = TxNumberLookup::from_compact(&buf, 32);
    assert_eq!(y, x);
    assert!(rest.is_empty());
}

#[test]
fn lookup_store_path() {
    let s = TxLookupStore::new(PathBuf::from("/tmp/lookups"));
    assert_eq!(s.path, PathBuf::from("/tmp/lookups"));
}
