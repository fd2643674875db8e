//! Settings of the job generator and the length of time a job may run.

use std::time::{SystemTime, UNIX_EPOCH};
use vstd::prelude::*;
use vstd::string::StringSliceAdditionalSpecFns;

use crate::span::{max_nanos, sub_or_zero, Span, NANOS_PER_SEC};

verus! {

/// The client version placed, RLP-encoded, in the header's extra data by default.
pub const CLIENT_VERSION: &'static str = "reth/v0.1.0-alpha.13";

/// The default target gas ceiling: the Ethereum mainnet block gas limit.
pub const ETHEREUM_BLOCK_GAS_LIMIT: u64 = 30_000_000;

/// The length of one slot in seconds.
pub const SLOT_DURATION_SECS: u64 = 12;

/// The default number of build attempts that may run at once.
pub const DEFAULT_MAX_PAYLOAD_TASKS: usize = 3;

/// The RLP encoding of a byte string shorter than 56 bytes.
pub open spec fn rlp_short_string(b: Seq<u8>) -> Seq<u8> {
    if b.len() == 1 && b[0] < 0x80 {
        b
    } else {
        seq![(0x80 + b.len()) as u8] + b
    }
}

/// Relies on `alloy_rlp::encode` for a byte slice: a single byte below 0x80
/// stands for itself, a string shorter than 56 bytes gets the one-byte header
/// `0x80 + len`, and a longer one ends with the string itself.
#[verifier::external_body]
fn rlp_encode_bytes(b: &[u8]) -> (r: Vec<u8>)
    ensures
        b@.len() < 56 ==> r@ == rlp_short_string(b@),
        b@.len() >= 56 ==> r@.len() > b@.len() && r@.subrange(r@.len() - b@.len(), r@.len() as int) == b@,
{
    alloy_rlp::encode(b)
}

#[verifier::external_type_specification]
#[verifier::external_body]
pub struct ExSystemTime(SystemTime);

/// Relies on `SystemTime::now`: the current wall-clock time, with no promise on its value.
#[verifier::external_body]
fn system_now() -> (r: SystemTime) {
    SystemTime::now()
}

/// Relies on `SystemTime::duration_since(UNIX_EPOCH)`: the time elapsed since the
/// Unix epoch, or `None` for a time before it.
#[verifier::external_body]
fn since_unix_epoch(t: &SystemTime) -> (r: Option<Span>)
    ensures
        r matches Some(s) ==> s.wf(),
{
    match t.duration_since(UNIX_EPOCH) {
        Ok(d) => Some(Span { secs: d.as_secs(), nanos: d.subsec_nanos() }),
        Err(_) => None,
    }
}

/// The time from `now` until the Unix timestamp `unix_timestamp_secs`, or zero
/// when that moment has passed.
pub open spec fn until_timestamp(unix_timestamp_secs: u64, now: nat) -> nat {
    sub_or_zero(unix_timestamp_secs as nat * NANOS_PER_SEC as nat, now)
}

/// Returns the duration from `now` until the given Unix timestamp in seconds:
/// zero when it is not later than `now`, else the difference.
pub fn duration_until_at(unix_timestamp_secs: u64, now: Span) -> (r: Span)
    requires
        now.wf(),
    ensures
        r.wf(),
        r.nanos_total() == until_timestamp(unix_timestamp_secs, now.nanos_total()),
        unix_timestamp_secs as nat * NANOS_PER_SEC as nat <= now.nanos_total() ==> r.nanos_total() == 0,
        unix_timestamp_secs as nat * NANOS_PER_SEC as nat > now.nanos_total() ==> r.nanos_total()
            == unix_timestamp_secs as nat * NANOS_PER_SEC as nat - now.nanos_total(),
{
    Span::from_secs(unix_timestamp_secs).saturating_sub(&now)
}

/// The wall-clock time elapsed since the Unix epoch. A clock set before the
/// epoch counts as the epoch itself.
pub fn unix_now() -> (r: Span)
    ensures
        r.wf(),
{
    match since_unix_epoch(&system_now()) {
        Some(s) => s,
        None => Span::zero(),
    }
}

/// Returns the duration until the given Unix timestamp in seconds, measured
/// against the wall clock, or zero if the timestamp is in the past.
pub fn duration_until(unix_timestamp_secs: u64) -> (r: Span)
    ensures
        r.wf(),
        exists|now: nat| r.nanos_total() == until_timestamp(unix_timestamp_secs, now),
{
    duration_until_at(unix_timestamp_secs, unix_now())
}

/// The longest a job may run for a slot at `until` from now: the configured
/// deadline, plus the time until the slot clamped to three deadlines.
pub open spec fn job_duration(deadline: nat, until: nat) -> nat {
    deadline + if until <= 3 * deadline { until } else { 3 * deadline }
}

/// Settings for the job generator.
#[derive(Clone, Debug)]
pub struct BasicPayloadJobGeneratorConfig {
    /// Data to include in the block's extra data field.
    pub extradata: Vec<u8>,
    /// Target gas ceiling for built blocks.
    pub max_gas_limit: u64,
    /// The time to wait after a finished build attempt before the next one.
    pub interval: Span,
    /// The base length of a job.
    pub deadline: Span,
    /// Maximum number of build attempts that may run at once.
    pub max_payload_tasks: usize,
}

impl BasicPayloadJobGeneratorConfig {
    /// The settings are usable: well-formed spans, at least one build slot,
    /// and a deadline short enough that four of them can be held.
    pub open spec fn wf(&self) -> bool {
        &&& self.interval.wf()
        &&& self.deadline.wf()
        &&& self.max_payload_tasks > 0
        &&& 4 * self.deadline.nanos_total() <= max_nanos()
    }

    /// Sets the interval at which the job should build a new payload after the last.
    pub fn interval(self, interval: Span) -> (r: Self)
        ensures
            r.interval == interval,
            r.deadline == self.deadline,
            r.max_payload_tasks == self.max_payload_tasks,
            r.extradata == self.extradata,
            r.max_gas_limit == self.max_gas_limit,
    {
        let mut this = self;
        this.interval = interval;
        this
    }

    /// Sets the deadline when this job should resolve.
    pub fn deadline(self, deadline: Span) -> (r: Self)
        ensures
            r.interval == self.interval,
            r.deadline == deadline,
            r.max_payload_tasks == self.max_payload_tasks,
            r.extradata == self.extradata,
            r.max_gas_limit == self.max_gas_limit,
    {
        let mut this = self;
        this.deadline = deadline;
        this
    }

    /// Sets the maximum number of build attempts that may run at once, which
    /// must be at least one.
    pub fn max_payload_tasks(self, max_payload_tasks: usize) -> (r: Self)
        requires
            max_payload_tasks > 0,
        ensures
            r.interval == self.interval,
            r.deadline == self.deadline,
            r.max_payload_tasks == max_payload_tasks,
            r.extradata == self.extradata,
            r.max_gas_limit == self.max_gas_limit,
    {
        let mut this = self;
        this.max_payload_tasks = max_payload_tasks;
        this
    }

    /// Sets the data to include in the block's extra data field.
    pub fn extradata(self, extradata: Vec<u8>) -> (r: Self)
        ensures
            r.interval == self.interval,
            r.deadline == self.deadline,
            r.max_payload_tasks == self.max_payload_tasks,
            r.extradata == extradata,
            r.max_gas_limit == self.max_gas_limit,
    {
        let mut this = self;
        this.extradata = extradata;
        this
    }

    /// Sets the target gas ceiling for built blocks.
    pub fn max_gas_limit(self, max_gas_limit: u64) -> (r: Self)
        ensures
            r.interval == self.interval,
            r.deadline == self.deadline,
            r.max_payload_tasks == self.max_payload_tasks,
            r.extradata == self.extradata,
            r.max_gas_limit == max_gas_limit,
    {
        let mut this = self;
        this.max_gas_limit = max_gas_limit;
        this
    }

    /// The maximum duration a job for a slot at `unix_timestamp` may run,
    /// with the wall clock at `now`. Clients should stop building once the
    /// slot's time has passed; one more deadline is allowed as a margin, and
    /// the wait for the slot is clamped to three deadlines against bad clocks.
    pub fn max_job_duration_at(&self, unix_timestamp: u64, now: Span) -> (r: Span)
        requires
            self.wf(),
            now.wf(),
        ensures
            r.wf(),
            r.nanos_total() == job_duration(
                self.deadline.nanos_total(),
                until_timestamp(unix_timestamp, now.nanos_total()),
            ),
    {
        let until = duration_until_at(unix_timestamp, now);
        let until = until.min(&self.deadline.mul(3));
        self.deadline.add(&until)
    }

    /// The maximum duration a job for a slot at `unix_timestamp` may run,
    /// measured against the wall clock.
    pub fn max_job_duration(&self, unix_timestamp: u64) -> (r: Span)
        requires
            self.wf(),
        ensures
            r.wf(),
            exists|now: nat| r.nanos_total() == job_duration(
                self.deadline.nanos_total(),
                until_timestamp(unix_timestamp, now),
            ),
    {
        self.max_job_duration_at(unix_timestamp, unix_now())
    }
}

impl Default for BasicPayloadJobGeneratorConfig {
    /// Extra data `rlp(CLIENT_VERSION)`, the mainnet gas limit, a one-second
    /// interval, a one-slot deadline and three build slots.
    fn default() -> (r: Self)
        ensures
            r.wf(),
            r.extradata@ == rlp_short_string(CLIENT_VERSION.spec_bytes()),
            r.max_gas_limit == ETHEREUM_BLOCK_GAS_LIMIT,
            r.interval.nanos_total() == NANOS_PER_SEC as nat,
            r.deadline.nanos_total() == SLOT_DURATION_SECS as nat * NANOS_PER_SEC as nat,
            r.max_payload_tasks == DEFAULT_MAX_PAYLOAD_TASKS,
    {
        proof {
            reveal_strlit("reth/v0.1.0-alpha.13");
            assert(CLIENT_VERSION@.len() == 20);
            assert(vstd::string::is_ascii(CLIENT_VERSION));
            vstd::string::is_ascii_spec_bytes(CLIENT_VERSION);
            assert(CLIENT_VERSION.spec_bytes().len() == 20);
        }
        BasicPayloadJobGeneratorConfig {
            extradata: rlp_encode_bytes(CLIENT_VERSION.as_bytes()),
            max_gas_limit: ETHEREUM_BLOCK_GAS_LIMIT,
            interval: Span::from_secs(1),
            deadline: Span::from_secs(SLOT_DURATION_SECS),
            max_payload_tasks: DEFAULT_MAX_PAYLOAD_TASKS,
        }
    }
}

/// A job never runs longer than four deadlines, whatever the slot's time.
pub proof fn lemma_job_duration_clamped(deadline: nat, until: nat)
    ensures
        job_duration(deadline, until) <= 4 * deadline,
        job_duration(deadline, until) >= deadline,
{
}

} // verus!
