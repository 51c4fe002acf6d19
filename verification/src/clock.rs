//! Activation clock: the process-wide shared cell holding the instant (in
//! milliseconds) of the most recently completed query. The coalescer's
//! loop stores into it on every completed search; the gesture thread reads
//! it for debounce decisions. Reads and writes are lock-free and
//! last-write-wins; the value is advisory, so nothing is promised of
//! which store a racing load observes — the debounce gate takes the loaded
//! value as an argument and is verified for every value of it.

use vstd::prelude::*;

verus! {

#[verifier::external_type_specification]
#[verifier::external_body]
#[verifier::reject_recursive_types(T)]
pub struct ExAtomicCell<T>(crossbeam::atomic::AtomicCell<T>);

/// A cloneable handle on the shared clock cell.
#[derive(Clone)]
pub struct ActivationClock {
    cell: std::sync::Arc<crossbeam::atomic::AtomicCell<Option<u64>>>,
}

impl ActivationClock {
    /// A fresh clock: no query has completed yet. Relies on crossbeam's
    /// `AtomicCell::new`.
    #[verifier::external_body]
    pub fn new() -> (c: ActivationClock)
    {
        ActivationClock { cell: std::sync::Arc::new(crossbeam::atomic::AtomicCell::new(None)) }
    }

    /// Record a completed query's instant. Relies on crossbeam's
    /// `AtomicCell::store`: an atomic last-write-wins replacement.
    #[verifier::external_body]
    pub fn record(&self, now_ms: u64)
    {
        self.cell.store(Some(now_ms));
    }

    /// Read the clock. Relies on crossbeam's `AtomicCell::load`: the
    /// result is atomically either the initial `None` or some recorded
    /// instant; which one depends on thread timing, so nothing more can be
    /// promised of it.
    #[verifier::external_body]
    pub fn recent(&self) -> (t: Option<u64>)
    {
        self.cell.load()
    }
}

} // verus!
