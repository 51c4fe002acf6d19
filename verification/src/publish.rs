//! Result publisher: makes each query's flattened section tree visible to
//! the render thread by an atomic pointer swap. The writer publishes a
//! fully built, immutable tree; readers load a consistent reference
//! without blocking the writer or each other, so a reader observes either
//! the old complete tree or the new complete tree, never a partial one.
//!
//! The snapshot cell is arc-swap's `ArcSwap`; its concrete default
//! strategy type is private to that crate, so the cell is held in opaque
//! holder structs and its contents are named by `published_model`.
//!
//! Within this library the cell has exactly one writer: `Publisher` cannot
//! be cloned, `publish` takes it exclusively, and the `SnapshotReader`
//! handles can only load. The writer-side model `published_model` is
//! therefore exactly the last published tree.

use crate::sections::{SectionTop, SectionTopModel};
use vstd::prelude::*;

verus! {

/// The unique writing handle on the published result snapshot.
#[verifier::external_body]
pub struct Publisher {
    cell: std::sync::Arc<arc_swap::ArcSwap<Vec<SectionTop>>>,
}

/// The model of what the publisher's cell holds: the last published tree,
/// initially empty. Spoken for by the contracts of `Publisher::new`,
/// `Publisher::publish` and `Publisher::latest`.
pub uninterp spec fn published_model(p: &Publisher) -> Seq<SectionTopModel>;

/// A non-blocking reading handle on the published snapshot; `handle`
/// makes more of them.
#[verifier::external_body]
pub struct SnapshotReader {
    cell: std::sync::Arc<arc_swap::ArcSwap<Vec<SectionTop>>>,
}

impl Publisher {
    /// A fresh publisher over an empty result set. Relies on arc-swap's
    /// `ArcSwap::from_pointee`: the cell initially holds the given value.
    #[verifier::external_body]
    pub fn new() -> (p: Publisher)
        ensures
            published_model(&p) == Seq::<SectionTopModel>::empty(),
    {
        Publisher { cell: std::sync::Arc::new(arc_swap::ArcSwap::from_pointee(Vec::new())) }
    }

    /// Atomically replace the whole published tree — publication is
    /// append-free, and no reader ever observes a half-updated sequence.
    /// Relies on arc-swap's `ArcSwapAny::store`: further loads yield the
    /// new value.
    #[verifier::external_body]
    pub fn publish(&mut self, tops: Vec<SectionTop>)
        ensures
            published_model(final(self)) == tops.deep_view(),
    {
        self.cell.store(std::sync::Arc::new(tops));
    }

    /// Read back the currently published tree; with this unique writer it
    /// is the last one published. Relies on arc-swap's
    /// `ArcSwapAny::load_full`: an atomic copy of the held pointer.
    #[verifier::external_body]
    pub fn latest(&self) -> (tops: Vec<SectionTop>)
        ensures
            tops.deep_view() == published_model(self),
    {
        (*self.cell.load_full()).clone()
    }

    /// A new reading handle on the same cell.
    #[verifier::external_body]
    pub fn reader(&self) -> (r: SnapshotReader)
    {
        SnapshotReader { cell: std::sync::Arc::clone(&self.cell) }
    }
}

impl SnapshotReader {
    /// Another reading handle on the same cell.
    #[verifier::external_body]
    pub fn handle(&self) -> (r: SnapshotReader)
    {
        SnapshotReader { cell: std::sync::Arc::clone(&self.cell) }
    }

    /// Non-blocking read of the latest published tree. Relies on
    /// arc-swap's `ArcSwapAny::load_full`: the result is atomically one
    /// whole published tree — which one depends on how the load races
    /// with the writer, so nothing more is promised of the value.
    #[verifier::external_body]
    pub fn read(&self) -> (tops: Vec<SectionTop>)
    {
        (*self.cell.load_full()).clone()
    }
}

} // verus!
