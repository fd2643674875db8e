//! Serving the payload to the consensus layer: the best payload so far, a
//! better one from the attempt in flight if it lands first, or else an empty
//! payload built as a fallback.

use std::sync::Arc;
use tokio::sync::oneshot::error::RecvError;
use vstd::prelude::*;

use crate::cancel::Cancelled;
use crate::job::{received, settle_received, BasicPayloadJob};
use crate::payload::{BuildOutcome, BuiltPayload, KeepPayloadJobAlive, PayloadBuilderError};

verus! {

/// The state of serving the payload once the job was resolved.
pub struct ResolveBestPayload<B> {
    /// The best payload so far.
    pub best_payload: Option<Arc<BuiltPayload<B>>>,
    /// The cancellation flag of an attempt in flight that might yet do better.
    pub maybe_better: Option<Cancelled>,
    /// Whether an empty payload is being built as the fallback.
    pub empty_payload: bool,
}

/// How resolving starts.
pub enum ResolveStart<B, C> {
    /// A best payload exists; the job stops, as the flag says.
    Ready(ResolveBestPayload<B>, KeepPayloadJobAlive),
    /// No payload was built yet. The builder is asked for one, with these
    /// cached reads, before an empty payload is built.
    Missing { maybe_better: Option<Cancelled>, cached_reads: Option<C> },
}

/// What one poll of the resolve step yields.
pub enum ResolvePoll<B> {
    /// The payload to serve, or the error of the fallback.
    Ready(Result<Arc<BuiltPayload<B>>, PayloadBuilderError>),
    /// The empty payload's channel is to be polled next.
    PollEmpty,
    /// Nothing yet: wait for the empty payload.
    Pending,
}

/// The payload of a `Better` outcome that the attempt in flight delivered, if any.
pub open spec fn better_of<B, C>(
    polled: Option<Result<Result<BuildOutcome<B, C>, PayloadBuilderError>, RecvError>>,
) -> Option<BuiltPayload<B>> {
    match polled {
        Some(p) => match received(p) {
            Ok(BuildOutcome::Better { payload, .. }) => Some(payload),
            _ => None,
        },
        None => None,
    }
}

impl<B, C> BasicPayloadJob<B, C> {
    /// Resolves the job: moves out the best payload and the attempt in flight.
    /// With no best payload the cached reads go to the builder's fallback.
    pub fn resolve(&mut self) -> (r: ResolveStart<B, C>)
        requires
            old(self).wf(),
        ensures
            final(self).wf(),
            final(self).best_payload is None,
            final(self).pending_block is None,
            final(self).finished == old(self).finished,
            old(self).best_payload is Some ==> {
                &&& final(self).cached_reads == old(self).cached_reads
                &&& r matches ResolveStart::Ready(fut, keep) && fut.best_payload == old(self).best_payload
                    && fut.maybe_better == old(self).pending_block && !fut.empty_payload
                    && keep == KeepPayloadJobAlive::No
            },
            old(self).best_payload is None ==> {
                &&& final(self).cached_reads is None
                &&& r matches ResolveStart::Missing { maybe_better, cached_reads }
                    && maybe_better == old(self).pending_block && cached_reads == old(self).cached_reads
            },
    {
        let best_payload = self.best_payload.take();
        let maybe_better = self.pending_block.take();
        match best_payload {
            Some(best) => ResolveStart::Ready(
                ResolveBestPayload { best_payload: Some(best), maybe_better, empty_payload: false },
                KeepPayloadJobAlive::No,
            ),
            None => ResolveStart::Missing { maybe_better, cached_reads: self.cached_reads.take() },
        }
    }
}

impl<B> ResolveBestPayload<B> {
    /// The builder answered the request for a missing payload. A payload it
    /// supplies is served and the job kept alive; without one an empty
    /// payload is built and the job stops.
    pub fn after_missing(
        maybe_better: Option<Cancelled>,
        missing: Option<Arc<BuiltPayload<B>>>,
    ) -> (r: (Self, KeepPayloadJobAlive))
        ensures
            r.0.maybe_better == maybe_better,
            r.0.best_payload == missing,
            r.0.empty_payload == (missing is None),
            r.1 == (if missing is Some { KeepPayloadJobAlive::Yes } else { KeepPayloadJobAlive::No }),
    {
        match missing {
            Some(payload) => (
                ResolveBestPayload { best_payload: Some(payload), maybe_better, empty_payload: false },
                KeepPayloadJobAlive::Yes,
            ),
            None => (
                ResolveBestPayload { best_payload: None, maybe_better, empty_payload: true },
                KeepPayloadJobAlive::No,
            ),
        }
    }

    /// Whether a poll can still yield something.
    pub open spec fn live(&self) -> bool {
        self.best_payload is Some || self.empty_payload
    }

    /// First part of a poll. `polled` is what the attempt in flight delivered,
    /// or `None` if there is none or it has not finished. A better payload
    /// from it wins; else the best payload so far; else the empty payload's
    /// channel is polled next. A finished attempt is dropped either way.
    pub fn poll_better<C>(
        &mut self,
        polled: Option<Result<Result<BuildOutcome<B, C>, PayloadBuilderError>, RecvError>>,
    ) -> (r: ResolvePoll<B>)
        requires
            polled is Some ==> old(self).maybe_better is Some,
            old(self).live() || better_of(polled) is Some,
        ensures
            final(self).empty_payload == old(self).empty_payload,
            polled is Some ==> final(self).maybe_better is None,
            polled is None ==> final(self).maybe_better == old(self).maybe_better,
            better_of(polled) matches Some(payload) ==> {
                &&& r matches ResolvePoll::Ready(Ok(out)) && *out == payload
                &&& final(self).best_payload == old(self).best_payload
            },
            better_of(polled) is None ==> match old(self).best_payload {
                Some(best) => r matches ResolvePoll::Ready(Ok(out)) && out == best
                    && final(self).best_payload is None,
                None => r is PollEmpty && final(self).best_payload is None,
            },
    {
        if let Some(p) = polled {
            self.maybe_better = None;
            if let Ok(BuildOutcome::Better { payload, .. }) = settle_received(p) {
                return ResolvePoll::Ready(Ok(Arc::new(payload)));
            }
        }
        match self.best_payload.take() {
            Some(best) => ResolvePoll::Ready(Ok(best)),
            None => ResolvePoll::PollEmpty,
        }
    }

    /// Second part of a poll: `polled` is what the empty payload's channel
    /// delivered, or `None` while it is being built. Its payload or its error
    /// is served; a dropped channel counts as closed.
    pub fn poll_empty(
        &mut self,
        polled: Option<Result<Result<BuiltPayload<B>, PayloadBuilderError>, RecvError>>,
    ) -> (r: ResolvePoll<B>)
        requires
            old(self).empty_payload,
        ensures
            final(self).best_payload == old(self).best_payload,
            final(self).maybe_better == old(self).maybe_better,
            match polled {
                None => r is Pending && final(self).empty_payload,
                Some(p) => !final(self).empty_payload && match received(p) {
                    Ok(payload) => r matches ResolvePoll::Ready(Ok(out)) && *out == payload,
                    Err(e) => r matches ResolvePoll::Ready(Err(err)) && err == e,
                },
            },
    {
        match polled {
            None => ResolvePoll::Pending,
            Some(p) => {
                self.empty_payload = false;
                match settle_received(p) {
                    Ok(payload) => ResolvePoll::Ready(Ok(Arc::new(payload))),
                    Err(e) => ResolvePoll::Ready(Err(e)),
                }
            },
        }
    }

    /// Cancels the attempt in flight, if any: the resolve was abandoned.
    pub fn cancel_pending(&mut self)
        ensures
            final(self).maybe_better is None,
            final(self).best_payload == old(self).best_payload,
            final(self).empty_payload == old(self).empty_payload,
    {
        if let Some(pending) = self.maybe_better.take() {
            pending.cancel();
        }
    }
}

} // verus!
