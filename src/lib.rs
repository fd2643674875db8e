//! A basic payload job scheduler: a generator issues jobs, each job repeatedly
//! rebuilds a block payload on an interval until its deadline, keeps the best
//! one by fees, and serves it on request.

use vstd::prelude::*;

pub mod builder;
pub mod cancel;
pub mod config;
pub mod empty;
pub mod fees;
pub mod generator;
pub mod job;
pub mod payload;
pub mod payload_config;
pub mod resolve;
pub mod span;
pub mod tx_lookup;

verus! {

} // verus!
