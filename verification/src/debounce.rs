//! Debounce gate: decides whether an activation gesture may surface the
//! panel, based on how recently a query completed and on whether that same
//! completion has already been spent on an earlier show.

use vstd::prelude::*;

verus! {

/// Immutable configuration, shared read-only after startup: the dither
/// window, in milliseconds, during which an activation may follow a
/// completed query.
#[derive(Debug, Clone, Copy, PartialEq, Eq, Structural)]
pub struct DitherConfig {
    pub dither_ms: u64,
}

/// Gate state: the activation instant (a completed query's
/// timestamp) that has already been used for a show, if any.
#[derive(Debug, Clone, Copy, PartialEq, Eq, Structural)]
pub struct DebounceGate {
    pub used: Option<u64>,
}

/// Milliseconds elapsed from `then` to `now`, saturating at zero when the
/// clock reads earlier than the recorded instant.
pub open spec fn elapsed_ms(now: u64, then: u64) -> int {
    if now >= then {
        now - then
    } else {
        0
    }
}

/// The gating rule: a show is allowed exactly when a query completed at most
/// `dither_ms` ago and that completion has not already produced a show.
/// No prior query means no show, never an error.
pub open spec fn gate_allows(
    used: Option<u64>,
    now: u64,
    last_query: Option<u64>,
    dither_ms: u64,
) -> bool {
    match last_query {
        Option::None => false,
        Option::Some(t) => elapsed_ms(now, t) <= dither_ms && used != Option::Some(t),
    }
}

impl DebounceGate {
    /// A fresh gate: no activation instant has been spent yet.
    pub fn new() -> (g: DebounceGate)
        ensures
            g.used is None,
    {
        DebounceGate { used: None }
    }

    /// Decide whether an activation observed at `now` may show the panel,
    /// given the shared clock's last completed query instant. On an allowed
    /// show the instant is recorded as used, so one completed query can
    /// produce at most one show across repeated taps.
    pub fn allow_show(&mut self, now: u64, last_query: Option<u64>, cfg: &DitherConfig) -> (allow:
        bool)
        ensures
            allow == gate_allows(old(self).used, now, last_query, cfg.dither_ms),
            final(self).used == if allow {
                last_query
            } else {
                old(self).used
            },
    {
        let allow = match last_query {
            None => false,
            Some(t) => {
                let el: u64 = if now >= t {
                    now - t
                } else {
                    0
                };
                let fresh = match self.used {
                    None => true,
                    Some(u) => u != t,
                };
                el <= cfg.dither_ms && fresh
            },
        };
        if allow {
            self.used = last_query;
        }
        allow
    }
}

/// Debounce idempotence: deciding twice over the same `(now, last_query)`
/// pair, with no intervening clock update, gives the gating rule's answer the
/// first time and `false` the second time — once a show is allowed the
/// instant is spent, and if none was allowed the state did not change and
/// the first answer was already `false`.
pub proof fn lemma_gate_idempotent(
    g: DebounceGate,
    now: u64,
    last_query: Option<u64>,
    dither_ms: u64,
)
    ensures
        ({
            let first = gate_allows(g.used, now, last_query, dither_ms);
            let used_after = if first {
                last_query
            } else {
                g.used
            };
            let second = gate_allows(used_after, now, last_query, dither_ms);
            &&& second == false
            &&& (!first ==> used_after == g.used)
        }),
{
}

} // verus!
