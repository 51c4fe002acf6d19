//! Activation-and-query pipeline behind an instant word-lookup overlay.
//!
//! Input gestures and selected text arrive on separate channels; a time-based
//! debounce policy decides whether an activation may surface the panel, a
//! coalescer turns text into at most one dictionary query at a time, and each
//! query's nested definition records are flattened into a bounded, deduplicated
//! section tree that is published atomically for the render thread to read.

pub mod clock;
pub mod coalesce;
pub mod console;
pub mod debounce;
pub mod defs;
pub mod flatten;
pub mod gesture;
pub mod group;
pub mod publish;
pub mod sections;
pub mod wordtype;
