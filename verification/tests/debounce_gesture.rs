use hoverpanel::debounce::{DebounceGate, DitherConfig};
use hoverpanel::gesture::{GestureClassifier, GestureEvent, KeyCode, PanelMsg, TapKind};

fn cfg(ms: u64) -> DitherConfig {
    DitherConfig { dither_ms: ms }
}

#[test]
fn gate_no_prior_query_denies() {
    let mut gate = DebounceGate::new();
    assert!(!gate.allow_show(1000, None, &cfg(4000)));
}

#[test]
fn gate_within_window_allows_once() {
    let mut gate = DebounceGate::new();
    // a query completed at t=1000, activation at t=2000, window 4000ms
    assert!(gate.allow_show(2000, Some(1000), &cfg(4000)));
    // same completed query again: already used, suppressed
    assert!(!gate.allow_show(2000, Some(1000), &cfg(4000)));
    // a new completed query at t=3000 allows again
    assert!(gate.allow_show(3000, Some(3000), &cfg(4000)));
}

#[test]
fn gate_outside_window_denies() {
    let mut gate = DebounceGate::new();
    assert!(!gate.allow_show(9000, Some(1000), &cfg(4000)));
    // exactly at the edge is still allowed
    assert!(gate.allow_show(5000, Some(1000), &cfg(4000)));
}

#[test]
fn gate_clock_behind_instant_counts_as_zero_elapsed() {
    let mut gate = DebounceGate::new();
    assert!(gate.allow_show(500, Some(1000), &cfg(0)));
}

#[test]
fn first_tap_without_recent_query_hides() {
    let mut cls = GestureClassifier::new();
    let ev = GestureEvent { key: KeyCode::LeftCtrl, second: None, kind: TapKind::First(0) };
    let msgs = cls.on_gesture(ev, 1000, None, &cfg(4000));
    assert_eq!(msgs, vec![PanelMsg::Hide]);
}

#[test]
fn first_tap_with_recent_query_toggles() {
    let mut cls = GestureClassifier::new();
    let ev = GestureEvent { key: KeyCode::LeftCtrl, second: None, kind: TapKind::First(0) };
    let msgs = cls.on_gesture(ev, 1500, Some(1000), &cfg(4000));
    assert_eq!(msgs, vec![PanelMsg::Toggle]);
}

#[test]
fn combo_always_toggles() {
    let mut cls = GestureClassifier::new();
    // no recent query at all: debounce would say Hide, but a combo bypasses it
    let ev = GestureEvent {
        key: KeyCode::LeftCtrl,
        second: Some(KeyCode::LeftMeta),
        kind: TapKind::Other,
    };
    let msgs = cls.on_gesture(ev, 1000, None, &cfg(4000));
    assert_eq!(msgs, vec![PanelMsg::Toggle]);
    // order-independent
    let ev2 = GestureEvent {
        key: KeyCode::LeftMeta,
        second: Some(KeyCode::LeftCtrl),
        kind: TapKind::Other,
    };
    let msgs2 = cls.on_gesture(ev2, 1000, None, &cfg(4000));
    assert_eq!(msgs2, vec![PanelMsg::Toggle]);
}

#[test]
fn combo_on_modifier_first_tap_emits_both() {
    let mut cls = GestureClassifier::new();
    let ev = GestureEvent {
        key: KeyCode::LeftCtrl,
        second: Some(KeyCode::LeftMeta),
        kind: TapKind::First(0),
    };
    let msgs = cls.on_gesture(ev, 1000, None, &cfg(4000));
    assert_eq!(msgs, vec![PanelMsg::Hide, PanelMsg::Toggle]);
}

#[test]
fn repeat_taps_emit_every_second_tap() {
    let mut cls = GestureClassifier::new();
    let first = GestureEvent { key: KeyCode::LeftCtrl, second: None, kind: TapKind::First(0) };
    let repeat = GestureEvent { key: KeyCode::LeftCtrl, second: None, kind: TapKind::Repeat(1) };
    // the first tap resets the counter and emits
    assert_eq!(cls.on_gesture(first, 100, None, &cfg(50)).len(), 1);
    // first repeat: counter 1, odd, silent
    assert_eq!(cls.on_gesture(repeat, 110, None, &cfg(50)).len(), 0);
    // second repeat: counter 2, even, emits
    assert_eq!(cls.on_gesture(repeat, 120, None, &cfg(50)), vec![PanelMsg::Hide]);
    // third repeat: odd again, silent
    assert_eq!(cls.on_gesture(repeat, 130, None, &cfg(50)).len(), 0);
}

#[test]
fn other_keys_are_ignored() {
    let mut cls = GestureClassifier::new();
    let ev = GestureEvent { key: KeyCode::Other, second: None, kind: TapKind::First(0) };
    assert_eq!(cls.on_gesture(ev, 100, Some(90), &cfg(50)).len(), 0);
}

#[test]
fn odd_repeat_tap_still_spends_the_gate() {
    let mut cls = GestureClassifier::new();
    let repeat = GestureEvent { key: KeyCode::LeftCtrl, second: None, kind: TapKind::Repeat(1) };
    // counter becomes 1 (odd): nothing emitted, but the allowed show is spent
    assert_eq!(cls.on_gesture(repeat, 1500, Some(1000), &cfg(4000)).len(), 0);
    // next even tap would emit, but the instant is used up: Hide
    assert_eq!(cls.on_gesture(repeat, 1600, Some(1000), &cfg(4000)), vec![PanelMsg::Hide]);
}
