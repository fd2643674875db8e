//! The job generator: its shared parts, the build-slot permit, and how a new
//! job finds its parent block.

use std::sync::Arc;
use tokio::sync::Semaphore;
use vstd::prelude::*;

use crate::config::{job_duration, until_timestamp, BasicPayloadJobGeneratorConfig};
use crate::payload::{PayloadBuilderError, B256};
use crate::span::Span;

verus! {

/// The most permits a build-slot semaphore can hold.
pub const MAX_PAYLOAD_TASKS: usize = usize::MAX >> 3;

#[verifier::external_type_specification]
#[verifier::external_body]
pub struct ExSemaphore(Semaphore);

/// Relies on `tokio::sync::Semaphore::new`, which panics above
/// `Semaphore::MAX_PERMITS` (`usize::MAX >> 3`) permits.
#[verifier::external_body]
fn new_semaphore(permits: usize) -> (r: Semaphore)
    requires
        permits <= MAX_PAYLOAD_TASKS,
{
    Semaphore::new(permits)
}

/// Restricts how many build attempts run at once, across all jobs of a
/// generator. `permits` is the number of permits the semaphore was made with.
#[derive(Clone)]
pub struct PayloadTaskGuard(pub Arc<Semaphore>, pub Ghost<nat>);

impl PayloadTaskGuard {
    /// The number of permits the guard's semaphore was made with.
    pub open spec fn permits(&self) -> nat {
        self.1@
    }

    /// A guard whose semaphore is made with `max_payload_tasks` permits.
    pub fn new(max_payload_tasks: usize) -> (r: Self)
        requires
            max_payload_tasks <= MAX_PAYLOAD_TASKS,
        ensures
            r.permits() == max_payload_tasks as nat,
    {
        PayloadTaskGuard(Arc::new(new_semaphore(max_payload_tasks)), Ghost(max_payload_tasks as nat))
    }
}

/// Where the parent block of a new job is looked up.
#[derive(Clone, Copy, Debug, PartialEq, Eq)]
pub enum ParentSource {
    /// The parent hash is zero (genesis): use the latest block, and seal it
    /// by hashing.
    Latest,
    /// Look the block up by this hash, which then also seals it.
    ByHash(B256),
}

/// Whether every byte of the hash is zero.
pub open spec fn is_zero_hash(h: B256) -> bool {
    forall|i: int| 0 <= i < 32 ==> h[i] == 0
}

/// Picks where to look up the parent block named in the attributes.
pub fn parent_source(parent: B256) -> (r: ParentSource)
    ensures
        is_zero_hash(parent) ==> r == ParentSource::Latest,
        !is_zero_hash(parent) ==> r == ParentSource::ByHash(parent),
{
    let mut i: usize = 0;
    while i < 32
        invariant
            0 <= i <= 32,
            forall|j: int| 0 <= j < i ==> parent[j] == 0,
        decreases 32 - i,
    {
        if parent[i] != 0 {
            return ParentSource::ByHash(parent);
        }
        i = i + 1;
    }
    ParentSource::Latest
}

/// The parent block that was found, or `MissingParentBlock` naming the
/// attributes' parent hash.
pub fn require_parent<T>(parent: B256, found: Option<T>) -> (r: Result<T, PayloadBuilderError>)
    ensures
        match found {
            Some(block) => r == Ok::<T, PayloadBuilderError>(block),
            None => r == Err::<T, PayloadBuilderError>(PayloadBuilderError::MissingParentBlock(parent)),
        },
{
    match found {
        Some(block) => Ok(block),
        None => Err(PayloadBuilderError::MissingParentBlock(parent)),
    }
}

/// The generator of payload jobs: the chain client, the transaction pool,
/// the task spawner, the settings, the shared build-slot permit, the chain
/// specification and the builder.
pub struct BasicPayloadJobGenerator<Client, Pool, Tasks, Builder, Spec> {
    pub client: Client,
    pub pool: Pool,
    pub executor: Tasks,
    pub config: BasicPayloadJobGeneratorConfig,
    pub payload_task_guard: PayloadTaskGuard,
    pub chain_spec: Arc<Spec>,
    pub builder: Builder,
}

impl<Client, Pool, Tasks, Builder, Spec> BasicPayloadJobGenerator<Client, Pool, Tasks, Builder, Spec> {
    /// Creates a generator with the given settings and builder. Its permit
    /// holds `config.max_payload_tasks` build slots.
    pub fn with_builder(
        client: Client,
        pool: Pool,
        executor: Tasks,
        config: BasicPayloadJobGeneratorConfig,
        chain_spec: Arc<Spec>,
        builder: Builder,
    ) -> (r: Self)
        requires
            0 < config.max_payload_tasks <= MAX_PAYLOAD_TASKS,
        ensures
            r.payload_task_guard.permits() == config.max_payload_tasks as nat,
            r.client == client,
            r.pool == pool,
            r.executor == executor,
            r.config == config,
            r.chain_spec == chain_spec,
            r.builder == builder,
    {
        let payload_task_guard = PayloadTaskGuard::new(config.max_payload_tasks);
        BasicPayloadJobGenerator { client, pool, executor, config, payload_task_guard, chain_spec, builder }
    }

    /// The maximum duration a job for a slot at `unix_timestamp` may run,
    /// measured against the wall clock.
    pub fn max_job_duration(&self, unix_timestamp: u64) -> (r: Span)
        requires
            self.config.wf(),
        ensures
            r.wf(),
            exists|now: nat| r.nanos_total() == job_duration(
                self.config.deadline.nanos_total(),
                until_timestamp(unix_timestamp, now),
            ),
    {
        self.config.max_job_duration(unix_timestamp)
    }
}

} // verus!
