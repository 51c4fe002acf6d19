//! Query coalescer: consumes candidate query strings in arrival order,
//! silently discards a value equal to the last one dispatched, and skips
//! dispatch while the dictionary engine is still loading. The single
//! consumer dispatches at most one search at a time; the surrounding loop
//! performs the search itself and reports completion back here.

use vstd::prelude::*;

verus! {

/// What to do with one incoming candidate query.
#[derive(Debug, Clone, Copy, PartialEq, Eq, Structural)]
pub enum CoalesceAction {
    /// Equal to the last dispatched query: discard silently.
    SkipDuplicate,
    /// The engine has not finished loading: skip dispatch, keep state, and
    /// wait for the next trigger.
    EngineNotReady,
    /// Dispatch a search for this query.
    Dispatch,
}

/// Coalescer state: the last query string handed to the search stage.
pub struct QueryCoalescer {
    pub last_string: Option<String>,
}

/// The step relation: the action for one incoming query and the next
/// `last_string` model. Duplicates are recognized first; a not-yet-ready
/// engine leaves the state untouched so the same text can fire later.
pub open spec fn submit_spec(last: Option<Seq<char>>, q: Seq<char>, engine_ready: bool) -> (
    CoalesceAction,
    Option<Seq<char>>,
) {
    if last == Option::Some(q) {
        (CoalesceAction::SkipDuplicate, last)
    } else if !engine_ready {
        (CoalesceAction::EngineNotReady, last)
    } else {
        (CoalesceAction::Dispatch, Option::Some(q))
    }
}

impl QueryCoalescer {
    /// A fresh coalescer: nothing dispatched yet.
    pub fn new() -> (c: QueryCoalescer)
        ensures
            c.last_string is None,
    {
        QueryCoalescer { last_string: None }
    }

    /// Decide what to do with one incoming query; on `Dispatch` the query
    /// becomes the new dedup reference.
    pub fn submit(&mut self, q: String, engine_ready: bool) -> (action: CoalesceAction)
        ensures
            ({
                let (act, last2) = submit_spec(
                    old(self).last_string.deep_view(),
                    q@,
                    engine_ready,
                );
                &&& action == act
                &&& final(self).last_string.deep_view() == last2
            }),
    {
        let dup = match &self.last_string {
            None => false,
            Some(prev) => *prev == q,
        };
        if dup {
            CoalesceAction::SkipDuplicate
        } else if !engine_ready {
            CoalesceAction::EngineNotReady
        } else {
            self.last_string = Some(q);
            CoalesceAction::Dispatch
        }
    }
}

/// Coalescing: a query that was just dispatched is discarded when it
/// arrives again immediately, whatever the engine state — consecutive
/// equal submissions never dispatch twice.
pub proof fn lemma_coalesce_dedup(
    last: Option<Seq<char>>,
    q: Seq<char>,
    ready1: bool,
    ready2: bool,
)
    ensures
        ({
            let (a1, l1) = submit_spec(last, q, ready1);
            a1 == CoalesceAction::Dispatch ==> submit_spec(l1, q, ready2).0
                == CoalesceAction::SkipDuplicate
        }),
{
}

/// A skipped submission leaves the state unchanged: whatever was not
/// dispatched does not become the dedup reference.
pub proof fn lemma_coalesce_skip_keeps_state(
    last: Option<Seq<char>>,
    q: Seq<char>,
    engine_ready: bool,
)
    ensures
        ({
            let (a, l1) = submit_spec(last, q, engine_ready);
            a != CoalesceAction::Dispatch ==> l1 == last
        }),
{
}

} // verus!
