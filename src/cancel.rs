//! The flag through which a job asks a running build attempt to stop.

use std::sync::atomic::{AtomicBool, Ordering};
use std::sync::Arc;
use vstd::prelude::*;

verus! {

/// A shared cancellation flag. All clones alias the same flag, which starts
/// out false and, once set, stays set. Builders poll it between units of work.
#[derive(Clone, Debug)]
pub struct Cancelled(Arc<AtomicBool>);

impl Cancelled {
    /// A fresh flag, not yet set.
    pub fn new() -> (r: Cancelled) {
        Cancelled(Arc::new(AtomicBool::new(false)))
    }

    /// Returns true if the job was cancelled.
    pub fn is_cancelled(&self) -> (r: bool) {
        self.0.load(Ordering::Relaxed)
    }

    /// Sets the flag, for this handle and every clone of it.
    pub fn cancel(&self) {
        self.0.store(true, Ordering::Relaxed);
    }
}

} // verus!
