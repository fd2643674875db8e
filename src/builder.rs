//! What a build attempt is given, and the interface of the builder that runs it.

use std::sync::Arc;
use vstd::prelude::*;

use crate::cancel::Cancelled;
use crate::payload::{BuildOutcome, BuiltPayload, PayloadBuilderError};

verus! {

/// The arguments of one build attempt: the chain client, the transaction
/// pool, the cached reads to start from, the job's configuration `K`, the
/// cancellation flag to poll, and the best payload so far.
pub struct BuildArguments<Pool, Client, K, B, C> {
    pub client: Client,
    pub pool: Pool,
    pub cached_reads: C,
    pub config: K,
    pub cancel: Cancelled,
    pub best_payload: Option<Arc<BuiltPayload<B>>>,
}

impl<Pool, Client, K, B, C> BuildArguments<Pool, Client, K, B, C> {
    /// Create new build arguments.
    pub fn new(
        client: Client,
        pool: Pool,
        cached_reads: C,
        config: K,
        cancel: Cancelled,
        best_payload: Option<Arc<BuiltPayload<B>>>,
    ) -> (r: Self)
        ensures
            r.client == client,
            r.pool == pool,
            r.cached_reads == cached_reads,
            r.config == config,
            r.best_payload == best_payload,
    {
        BuildArguments { client, pool, cached_reads, config, cancel, best_payload }
    }
}

/// A builder of payloads, implemented by the node. `try_build` returns
/// `Cancelled` only after seeing the flag set, and otherwise `Better` (strictly
/// higher fees than the best payload it was given) or `Aborted`, handing back
/// the cached reads in both.
pub trait PayloadBuilder<Pool, Client, K, B, C> {
    /// Tries to build a payload from the arguments.
    fn try_build(&self, args: BuildArguments<Pool, Client, K, B, C>) -> Result<BuildOutcome<B, C>, PayloadBuilderError>;

    /// Invoked when the job is resolved before any payload was built. A
    /// payload returned here is served, and the job is kept alive. By
    /// default there is none.
    fn on_missing_payload(&self, args: BuildArguments<Pool, Client, K, B, C>) -> Option<Arc<BuiltPayload<B>>> {
        None
    }
}

} // verus!
