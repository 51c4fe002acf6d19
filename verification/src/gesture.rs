//! Gesture classifier: consumes decoded key-tap events, tracks the tap
//! counter for the modifier key, and emits discrete activation intents.
//! Show/hide decisions go through the debounce gate; an explicit two-key
//! combo always toggles, bypassing that policy.

use crate::debounce::{gate_allows, DebounceGate, DitherConfig};
use vstd::prelude::*;

verus! {

/// The keys the classifier distinguishes: the modifier that drives
/// show/hide, the secondary key of the explicit toggle combo, and
/// everything else.
#[derive(Debug, Clone, Copy, PartialEq, Eq, Structural)]
pub enum KeyCode {
    LeftCtrl,
    LeftMeta,
    Other,
}

/// Classification of one key tap: the first tap of a burst, a repeated
/// tap within a burst (each with its reported distance), or anything else.
#[derive(Debug, Clone, Copy, PartialEq, Eq, Structural)]
pub enum TapKind {
    First(u32),
    Repeat(u32),
    Other,
}

/// One decoded gesture event: the primary key, an optional simultaneous
/// second key, and the tap classification.
#[derive(Debug, Clone, Copy, PartialEq, Eq, Structural)]
pub struct GestureEvent {
    pub key: KeyCode,
    pub second: Option<KeyCode>,
    pub kind: TapKind,
}

/// An activation intent emitted toward the panel.
#[derive(Debug, Clone, Copy, PartialEq, Eq, Structural)]
pub enum PanelMsg {
    Toggle,
    Hide,
}

/// The event reports the modifier and secondary key pressed together, in
/// either order.
pub open spec fn gesture_is_combo(ev: GestureEvent) -> bool {
    ||| (ev.key == KeyCode::LeftCtrl && ev.second == Option::Some(KeyCode::LeftMeta))
    ||| (ev.key == KeyCode::LeftMeta && ev.second == Option::Some(KeyCode::LeftCtrl))
}

/// The tap counter after one more repeated tap; only its parity matters,
/// which wrapping preserves.
pub open spec fn inc_count(c: u64) -> u64 {
    if c == 0xffff_ffff_ffff_ffff {
        0
    } else {
        (c + 1) as u64
    }
}

/// Classifier state: the modifier key's tap counter and the debounce
/// gate's used-instant marker. Memoryless across keys other than the
/// modifier.
#[derive(Debug, Clone, PartialEq, Eq, Structural)]
pub struct GestureClassifier {
    pub tap_count: u64,
    pub gate: DebounceGate,
}

/// The whole step relation of the classifier: next state and the emitted
/// intents, in emission order. On any modifier-key event the debounce policy is
/// consulted once (and its used-marker spent on an allowed show, message
/// or not); a `First` tap resets the counter and always emits, a `Repeat`
/// tap increments it and emits on every second tap, anything else is
/// silent. A combo event additionally emits an unconditional `Toggle`.
pub open spec fn classifier_step(
    s: GestureClassifier,
    ev: GestureEvent,
    now: u64,
    last_query: Option<u64>,
    dither_ms: u64,
) -> (GestureClassifier, Seq<PanelMsg>) {
    let st = if ev.key == KeyCode::LeftCtrl {
        let allow = gate_allows(s.gate.used, now, last_query, dither_ms);
        let used1 = if allow {
            last_query
        } else {
            s.gate.used
        };
        let gate_msg = if allow {
            PanelMsg::Toggle
        } else {
            PanelMsg::Hide
        };
        match ev.kind {
            TapKind::First(_) => (
                GestureClassifier { tap_count: 0, gate: DebounceGate { used: used1 } },
                seq![gate_msg],
            ),
            TapKind::Repeat(_) => {
                let c1 = inc_count(s.tap_count);
                let msgs = if c1 % 2 == 0 {
                    seq![gate_msg]
                } else {
                    Seq::<PanelMsg>::empty()
                };
                (GestureClassifier { tap_count: c1, gate: DebounceGate { used: used1 } }, msgs)
            },
            TapKind::Other => (
                GestureClassifier { tap_count: s.tap_count, gate: DebounceGate { used: used1 } },
                Seq::<PanelMsg>::empty(),
            ),
        }
    } else {
        (s, Seq::<PanelMsg>::empty())
    };
    let combo_msgs = if gesture_is_combo(ev) {
        seq![PanelMsg::Toggle]
    } else {
        Seq::<PanelMsg>::empty()
    };
    (st.0, st.1 + combo_msgs)
}

impl GestureClassifier {
    /// A fresh classifier: counter at zero, gate unspent.
    pub fn new() -> (c: GestureClassifier)
        ensures
            c.tap_count == 0,
            c.gate.used is None,
    {
        GestureClassifier { tap_count: 0, gate: DebounceGate { used: None } }
    }

    /// Process one gesture event against the shared clock reading and the
    /// configured dither window; returns the intents to send, in order.
    pub fn on_gesture(
        &mut self,
        ev: GestureEvent,
        now: u64,
        last_query: Option<u64>,
        cfg: &DitherConfig,
    ) -> (msgs: Vec<PanelMsg>)
        ensures
            ({
                let (s2, out) = classifier_step(*old(self), ev, now, last_query, cfg.dither_ms);
                &&& *final(self) == s2
                &&& msgs@ == out
            }),
    {
        let mut msgs: Vec<PanelMsg> = Vec::new();
        if ev.key == KeyCode::LeftCtrl {
            let allow = self.gate.allow_show(now, last_query, cfg);
            match ev.kind {
                TapKind::First(_) => {
                    self.tap_count = 0;
                    if allow {
                        msgs.push(PanelMsg::Toggle);
                    } else {
                        msgs.push(PanelMsg::Hide);
                    }
                },
                TapKind::Repeat(_) => {
                    self.tap_count = if self.tap_count == 0xffff_ffff_ffff_ffff {
                        0
                    } else {
                        self.tap_count + 1
                    };
                    if self.tap_count % 2 == 0 {
                        if allow {
                            msgs.push(PanelMsg::Toggle);
                        } else {
                            msgs.push(PanelMsg::Hide);
                        }
                    }
                },
                TapKind::Other => {},
            }
        }
        let combo = (matches!(ev.key, KeyCode::LeftCtrl) && matches!(
            ev.second,
            Some(KeyCode::LeftMeta),
        )) || (matches!(ev.key, KeyCode::LeftMeta) && matches!(
            ev.second,
            Some(KeyCode::LeftCtrl),
        ));
        if combo {
            msgs.push(PanelMsg::Toggle);
        }
        proof {
            let (s2, out) = classifier_step(*old(self), ev, now, last_query, cfg.dither_ms);
            assert(msgs@ =~= out);
        }
        msgs
    }
}

} // verus!
