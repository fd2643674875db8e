use std::sync::Arc;

use payload_basic::cancel::Cancelled;
use payload_basic::fees::U256;
use payload_basic::job::{settle_received, BasicPayloadJob};
use payload_basic::payload::{is_better_payload, BuildOutcome, BuiltPayload, KeepPayloadJobAlive, PayloadBuilderError};
use payload_basic::resolve::{ResolveBestPayload, ResolvePoll, ResolveStart};

type Job = BasicPayloadJob<&'static str, Vec<u32>>;

fn payload(block: &'static str, fees: u128) -> BuiltPayload<&'static str> {
    BuiltPayload::new([1; 8], block, U256::from_u128(fees))
}

fn recv_error() -> tokio::sync::oneshot::error::RecvError {
    let (tx, rx) = tokio::sync::oneshot::channel::<()>();
    drop(tx);
    rx.blocking_recv().unwrap_err()
}

#[test]
fn better_payload_without_best() {
    assert!(is_better_payload::<()>(None, U256::zero()));
    assert!(is_better_payload::<()>(None, U256::from_u128(5)));
}

#[test]
fn equal_fees_are_not_better() {
    let p = payload("a", 100);
    assert!(!is_better_payload(Some(&p), U256::from_u128(100)));
    assert!(!is_better_payload(Some(&p), U256::from_u128(99)));
    assert!(is_better_payload(Some(&p), U256::from_u128(101)));
}

#[test]
fn better_payload_compares_high_half() {
    let p = BuiltPayload::new([0; 8], (), U256::from_halves(1, 0));
    assert!(is_better_payload(Some(&p), U256::from_halves(1, 1)));
    assert!(!is_better_payload(Some(&p), U256::from_halves(0, u128::MAX)));
}

#[test]
fn cancellation_flag_is_shared() {
    let c = Cancelled::new();
    let reader = c.clone();
    assert!(!reader.is_cancelled());
    c.cancel();
    assert!(reader.is_cancelled());
    assert!(c.is_cancelled());
}

#[test]
fn tick_starts_one_attempt_at_a_time() {
    let mut job: Job = BasicPayloadJob::new();
    job.cached_reads = Some(vec![7]);
    let task = job.on_interval_tick().expect("first tick starts an attempt");
    assert_eq!(task.cached_reads, Some(vec![7]));
    assert!(task.best_payload.is_none());
    assert!(job.cached_reads.is_none());
    assert!(job.pending_block.is_some());
    assert!(job.on_interval_tick().is_none());
    assert!(job.on_interval_tick().is_none());
}

#[test]
fn cold_start_one_improvement() {
    let mut job: Job = BasicPayloadJob::new();
    let _task = job.on_interval_tick().unwrap();
    let reset = job.on_build_result(Ok(BuildOutcome::Better { payload: payload("first", 100), cached_reads: vec![1] }));
    assert!(reset);
    assert_eq!(job.cached_reads, Some(vec![1]));
    let task = job.on_interval_tick().unwrap();
    assert_eq!(task.best_payload.as_ref().unwrap().fees, U256::from_u128(100));
    let reset = job.on_build_result(Ok(BuildOutcome::Aborted { fees: U256::from_u128(80), cached_reads: vec![1, 2] }));
    assert!(reset);
    assert_eq!(job.best_payload.as_ref().unwrap().block, "first");
    assert_eq!(job.cached_reads, Some(vec![1, 2]));
    match job.resolve() {
        ResolveStart::Ready(mut fut, keep) => {
            assert_eq!(keep, KeepPayloadJobAlive::No);
            assert!(fut.maybe_better.is_none());
            match fut.poll_better::<Vec<u32>>(None) {
                ResolvePoll::Ready(Ok(p)) => {
                    assert_eq!(p.block, "first");
                    assert_eq!(p.fees, U256::from_u128(100));
                }
                _ => panic!("expected the best payload"),
            }
        }
        ResolveStart::Missing { .. } => panic!("a best payload exists"),
    }
    assert!(job.best_payload.is_none());
}

#[test]
fn failed_attempt_loses_cache_and_keeps_interval() {
    let mut job: Job = BasicPayloadJob::new();
    job.cached_reads = Some(vec![3]);
    let _task = job.on_interval_tick().unwrap();
    let reset = job.on_build_result(Err(PayloadBuilderError::ChannelClosed));
    assert!(!reset);
    assert!(job.pending_block.is_none());
    assert!(job.cached_reads.is_none());
    let task = job.on_interval_tick().expect("the next tick retries");
    assert!(task.cached_reads.is_none());
}

#[test]
fn deadline_mid_build_cancels_attempt() {
    let mut job: Job = BasicPayloadJob::new();
    let task = job.on_interval_tick().unwrap();
    assert!(!task.cancel.is_cancelled());
    job.on_deadline();
    assert!(job.finished);
    assert!(task.cancel.is_cancelled());
    assert!(job.best_payload.is_none());
    let reset = job.on_build_result(Ok(BuildOutcome::Better { payload: payload("late", 5), cached_reads: vec![] }));
    assert!(!reset);
    assert!(job.best_payload.is_none());
    assert!(job.on_interval_tick().is_none());
}

#[test]
fn resolve_with_no_payload_builds_empty() {
    let mut job: Job = BasicPayloadJob::new();
    job.cached_reads = Some(vec![9]);
    let (maybe_better, cached_reads) = match job.resolve() {
        ResolveStart::Missing { maybe_better, cached_reads } => (maybe_better, cached_reads),
        ResolveStart::Ready(..) => panic!("nothing was built"),
    };
    assert_eq!(cached_reads, Some(vec![9]));
    let (mut fut, keep) = ResolveBestPayload::after_missing(maybe_better, None);
    assert_eq!(keep, KeepPayloadJobAlive::No);
    assert!(fut.empty_payload);
    assert!(matches!(fut.poll_better::<Vec<u32>>(None), ResolvePoll::PollEmpty));
    assert!(matches!(fut.poll_empty(None), ResolvePoll::Pending));
    match fut.poll_empty(Some(Ok(Ok(payload("empty", 0))))) {
        ResolvePoll::Ready(Ok(p)) => {
            assert_eq!(p.block, "empty");
            assert_eq!(p.fees, U256::zero());
        }
        _ => panic!("expected the empty payload"),
    }
}

#[test]
fn resolve_keeps_job_alive_for_builder_payload() {
    let (mut fut, keep) = ResolveBestPayload::after_missing(None, Some(Arc::new(payload("l2", 3))));
    assert_eq!(keep, KeepPayloadJobAlive::Yes);
    assert!(!fut.empty_payload);
    match fut.poll_better::<Vec<u32>>(None) {
        ResolvePoll::Ready(Ok(p)) => assert_eq!(p.block, "l2"),
        _ => panic!("expected the builder's payload"),
    }
}

#[test]
fn resolve_prefers_better_build_in_flight() {
    let mut job: Job = BasicPayloadJob::new();
    let _t = job.on_interval_tick().unwrap();
    job.on_build_result(Ok(BuildOutcome::Better { payload: payload("p50", 50), cached_reads: vec![] }));
    let _t = job.on_interval_tick().unwrap();
    let mut fut = match job.resolve() {
        ResolveStart::Ready(fut, _) => fut,
        ResolveStart::Missing { .. } => panic!("a best payload exists"),
    };
    assert!(fut.maybe_better.is_some());
    let landed = Ok(Ok(BuildOutcome::<&'static str, Vec<u32>>::Better { payload: payload("p70", 70), cached_reads: vec![] }));
    match fut.poll_better(Some(landed)) {
        ResolvePoll::Ready(Ok(p)) => {
            assert_eq!(p.block, "p70");
            assert_eq!(p.fees, U256::from_u128(70));
        }
        _ => panic!("expected the better payload"),
    }
}

#[test]
fn resolve_falls_back_to_best_when_attempt_aborts() {
    let mut fut = ResolveBestPayload {
        best_payload: Some(Arc::new(payload("p50", 50))),
        maybe_better: Some(Cancelled::new()),
        empty_payload: false,
    };
    let landed = Ok(Ok(BuildOutcome::<&'static str, Vec<u32>>::Aborted { fees: U256::from_u128(40), cached_reads: vec![] }));
    match fut.poll_better(Some(landed)) {
        ResolvePoll::Ready(Ok(p)) => assert_eq!(p.block, "p50"),
        _ => panic!("expected the best payload"),
    }
    assert!(fut.maybe_better.is_none());
}

#[test]
fn empty_payload_error_is_surfaced() {
    let mut fut: ResolveBestPayload<&'static str> =
        ResolveBestPayload { best_payload: None, maybe_better: None, empty_payload: true };
    match fut.poll_empty(Some(Ok(Err(PayloadBuilderError::Internal("state".to_string()))))) {
        ResolvePoll::Ready(Err(PayloadBuilderError::Internal(m))) => assert_eq!(m, "state"),
        _ => panic!("expected the internal error"),
    }
    let mut fut: ResolveBestPayload<&'static str> =
        ResolveBestPayload { best_payload: None, maybe_better: None, empty_payload: true };
    assert!(matches!(fut.poll_empty(Some(Err(recv_error()))), ResolvePoll::Ready(Err(PayloadBuilderError::ChannelClosed))));
}

#[test]
fn dropped_channel_counts_as_closed() {
    let r: Result<u8, PayloadBuilderError> = settle_received(Err(recv_error()));
    assert!(matches!(r, Err(PayloadBuilderError::ChannelClosed)));
    let r: Result<u8, PayloadBuilderError> = settle_received(Ok(Ok(4)));
    assert!(matches!(r, Ok(4)));
}

#[test]
fn cancel_pending_sets_flag() {
    let flag = Cancelled::new();
    let mut fut: ResolveBestPayload<()> =
        ResolveBestPayload { best_payload: None, maybe_better: Some(flag.clone()), empty_payload: true };
    fut.cancel_pending();
    assert!(flag.is_cancelled());
    assert!(fut.maybe_better.is_none());
}

#[test]
fn best_payload_is_shared() {
    let mut job: Job = BasicPayloadJob::new();
    assert!(job.best_payload().is_none());
    let _t = job.on_interval_tick().unwrap();
    job.on_build_result(Ok(BuildOutcome::Better { payload: payload("b", 12), cached_reads: vec![] }));
    let best = job.best_payload().unwrap();
    assert_eq!(best.fees, U256::from_u128(12));
    assert!(Arc::ptr_eq(&best, job.best_payload.as_ref().unwrap()));
}
