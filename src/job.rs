//! The decisions of one payload job: when to start a build attempt, what to
//! keep from its outcome, and what to hand over when the job is resolved.
//!
//! The job's driver owns the timers and the result channels; it reports each
//! event here and carries out what comes back.

use std::sync::Arc;
use tokio::sync::oneshot::error::RecvError;
use vstd::prelude::*;

use crate::cancel::Cancelled;
use crate::fees::U256;
use crate::payload::{better_than, BuildOutcome, BuiltPayload, PayloadBuilderError};

verus! {

#[verifier::external_type_specification]
#[verifier::external_body]
pub struct ExRecvError(RecvError);

/// Relies on `Arc::clone`: the new handle points to the same value.
#[verifier::external_body]
pub(crate) fn share<T>(a: &Arc<T>) -> (r: Arc<T>)
    ensures
        r == *a,
{
    Arc::clone(a)
}

/// A handle to the best payload, when there is one, shared with the caller.
pub(crate) fn share_best<B>(best: &Option<Arc<BuiltPayload<B>>>) -> (r: Option<Arc<BuiltPayload<B>>>)
    ensures
        r == *best,
{
    match best {
        Some(p) => Some(share(p)),
        None => None,
    }
}

/// What a result channel delivers: the result itself, or the channel's
/// failure when its sender was dropped, which counts as a closed channel.
pub open spec fn received<T>(r: Result<Result<T, PayloadBuilderError>, RecvError>) -> Result<T, PayloadBuilderError> {
    match r {
        Ok(inner) => inner,
        Err(_) => Err(PayloadBuilderError::ChannelClosed),
    }
}

/// Flattens what a result channel delivered into the result of the task.
pub fn settle_received<T>(r: Result<Result<T, PayloadBuilderError>, RecvError>) -> (out: Result<T, PayloadBuilderError>)
    ensures
        out == received(r),
{
    match r {
        Ok(inner) => inner,
        Err(_) => Err(PayloadBuilderError::ChannelClosed),
    }
}

/// The fees of the best payload, if any.
pub open spec fn best_fees<B>(best: Option<Arc<BuiltPayload<B>>>) -> Option<U256> {
    match best {
        Some(p) => Some(p.fees),
        None => None,
    }
}

/// A build attempt to start: the flag it must poll, the cached reads it may
/// use (a fresh cache when `None`), and the best payload to beat.
pub struct BuildTask<B, C> {
    pub cancel: Cancelled,
    pub cached_reads: Option<C>,
    pub best_payload: Option<Arc<BuiltPayload<B>>>,
}

/// The state of a payload job that keeps rebuilding until its deadline.
pub struct BasicPayloadJob<B, C> {
    /// The best payload so far.
    pub best_payload: Option<Arc<BuiltPayload<B>>>,
    /// The cancellation flag of the build attempt in flight, if any.
    pub pending_block: Option<Cancelled>,
    /// The cached reads, while no attempt has them on loan.
    pub cached_reads: Option<C>,
    /// Whether the deadline has fired.
    pub finished: bool,
}

/// What the job does with the result of the attempt in flight.
pub open spec fn job_after_result<B, C>(
    s: BasicPayloadJob<B, C>,
    res: Result<BuildOutcome<B, C>, PayloadBuilderError>,
) -> BasicPayloadJob<B, C> {
    if s.finished || s.pending_block is None {
        s
    } else {
        match res {
            Ok(BuildOutcome::Better { payload, cached_reads }) => BasicPayloadJob {
                best_payload: Some(Arc::new(payload)),
                pending_block: None,
                cached_reads: Some(cached_reads),
                finished: false,
            },
            Ok(BuildOutcome::Aborted { cached_reads, .. }) => BasicPayloadJob {
                best_payload: s.best_payload,
                pending_block: None,
                cached_reads: Some(cached_reads),
                finished: false,
            },
            _ => BasicPayloadJob {
                best_payload: s.best_payload,
                pending_block: None,
                cached_reads: s.cached_reads,
                finished: false,
            },
        }
    }
}

/// Whether the job consumes `res` and resets its interval: a completed
/// attempt that was in flight before the deadline.
pub open spec fn resets_interval<B, C>(
    s: BasicPayloadJob<B, C>,
    res: Result<BuildOutcome<B, C>, PayloadBuilderError>,
) -> bool {
    !s.finished && s.pending_block is Some && res is Ok
}

impl<B, C> BasicPayloadJob<B, C> {
    /// While an attempt is in flight it holds the cached reads.
    pub open spec fn wf(&self) -> bool {
        self.pending_block is Some ==> self.cached_reads is None
    }

    /// A job with nothing built, nothing in flight and no cached reads.
    pub fn new() -> (r: Self)
        ensures
            r.wf(),
            r.best_payload is None,
            r.pending_block is None,
            r.cached_reads is None,
            !r.finished,
    {
        BasicPayloadJob { best_payload: None, pending_block: None, cached_reads: None, finished: false }
    }

    /// The best payload so far, shared with the caller. With none, the
    /// caller builds an empty payload in its place.
    pub fn best_payload(&self) -> (r: Option<Arc<BuiltPayload<B>>>)
        ensures
            r == self.best_payload,
    {
        share_best(&self.best_payload)
    }

    /// The deadline fired: the job completes and the attempt in flight, if
    /// any, is cancelled and forgotten.
    pub fn on_deadline(&mut self)
        requires
            old(self).wf(),
        ensures
            final(self).wf(),
            final(self).finished,
            final(self).pending_block is None,
            final(self).best_payload == old(self).best_payload,
            final(self).cached_reads == old(self).cached_reads,
    {
        if let Some(pending) = self.pending_block.take() {
            pending.cancel();
        }
        self.finished = true;
    }

    /// An interval tick: starts a build attempt unless one is in flight or
    /// the deadline has fired. The attempt takes the cached reads with it.
    pub fn on_interval_tick(&mut self) -> (r: Option<BuildTask<B, C>>)
        requires
            old(self).wf(),
        ensures
            final(self).wf(),
            final(self).finished == old(self).finished,
            final(self).best_payload == old(self).best_payload,
            old(self).finished || old(self).pending_block is Some ==> r is None && *final(self) == *old(self),
            !old(self).finished && old(self).pending_block is None ==> {
                &&& final(self).pending_block is Some
                &&& final(self).cached_reads is None
                &&& r matches Some(task) && task.cached_reads == old(self).cached_reads
                    && task.best_payload == old(self).best_payload
            },
    {
        if self.finished || self.pending_block.is_some() {
            return None;
        }
        let cancel = Cancelled::new();
        let task = BuildTask {
            cancel: cancel.clone(),
            cached_reads: self.cached_reads.take(),
            best_payload: share_best(&self.best_payload),
        };
        self.pending_block = Some(cancel);
        Some(task)
    }

    /// The attempt in flight finished with `res`. A better payload becomes
    /// the best one; the cached reads come back from every outcome; a failed
    /// attempt loses them. Returns whether the interval restarts, which it
    /// does after a completed attempt only. After the deadline nothing changes.
    pub fn on_build_result(&mut self, res: Result<BuildOutcome<B, C>, PayloadBuilderError>) -> (r: bool)
        requires
            old(self).wf(),
            !(res matches Ok(BuildOutcome::Cancelled)),
        ensures
            final(self).wf(),
            *final(self) == job_after_result(*old(self), res),
            r == resets_interval(*old(self), res),
    {
        if self.finished || self.pending_block.is_none() {
            return false;
        }
        self.pending_block = None;
        match res {
            Ok(BuildOutcome::Better { payload, cached_reads }) => {
                self.cached_reads = Some(cached_reads);
                self.best_payload = Some(Arc::new(payload));
                true
            },
            Ok(BuildOutcome::Aborted { cached_reads, .. }) => {
                self.cached_reads = Some(cached_reads);
                true
            },
            Ok(BuildOutcome::Cancelled) => false,
            Err(_) => false,
        }
    }
}

/// The best payload's fees only grow, and strictly: an outcome stores a new
/// best only when it was in flight before the deadline and is `Better`, and
/// a `Better` outcome beats the best payload its attempt was handed.
pub proof fn lemma_best_fees_increase<B, C>(
    s: BasicPayloadJob<B, C>,
    res: Result<BuildOutcome<B, C>, PayloadBuilderError>,
)
    requires
        res matches Ok(BuildOutcome::Better { payload, .. }) ==> better_than(
            best_fees(s.best_payload),
            payload.fees,
        ),
    ensures
        job_after_result(s, res).best_payload != s.best_payload ==> {
            &&& res matches Ok(BuildOutcome::Better { payload, .. })
            &&& job_after_result(s, res).best_payload == Some(Arc::new(payload))
            &&& s.best_payload matches Some(old_best) ==> payload.fees@ > old_best.fees@
        },
        !(res matches Ok(BuildOutcome::Better { .. })) ==> job_after_result(s, res).best_payload == s.best_payload,
{
}

/// Once the deadline has fired, no outcome is consumed: the job stays as it is.
pub proof fn lemma_deadline_final<B, C>(
    s: BasicPayloadJob<B, C>,
    res: Result<BuildOutcome<B, C>, PayloadBuilderError>,
)
    requires
        s.finished,
    ensures
        job_after_result(s, res) == s,
        !resets_interval(s, res),
{
}

/// Every outcome that completes the attempt in flight returns the cached
/// reads and leaves room for the next attempt; a failed one leaves room too.
pub proof fn lemma_cache_conserved<B, C>(
    s: BasicPayloadJob<B, C>,
    res: Result<BuildOutcome<B, C>, PayloadBuilderError>,
)
    requires
        s.wf(),
        !s.finished,
        s.pending_block is Some,
        !(res matches Ok(BuildOutcome::Cancelled)),
    ensures
        job_after_result(s, res).pending_block is None,
        job_after_result(s, res).wf(),
        resets_interval(s, res) == res is Ok,
        res is Ok ==> job_after_result(s, res).cached_reads is Some,
{
}

} // verus!
