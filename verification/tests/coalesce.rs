use hoverpanel::coalesce::{CoalesceAction, QueryCoalescer};

#[test]
fn duplicate_queries_fire_exactly_two_searches() {
    let mut c = QueryCoalescer::new();
    let inputs = ["hello", "hello", "world"];
    let mut dispatched: Vec<String> = Vec::new();
    for q in inputs {
        if c.submit(q.to_string(), true) == CoalesceAction::Dispatch {
            dispatched.push(q.to_string());
        }
    }
    assert_eq!(dispatched, vec!["hello".to_string(), "world".to_string()]);
}

#[test]
fn engine_not_ready_skips_and_keeps_state() {
    let mut c = QueryCoalescer::new();
    assert_eq!(c.submit("cat".to_string(), false), CoalesceAction::EngineNotReady);
    // the skipped query did not become the dedup reference: it fires once
    // the engine is up
    assert_eq!(c.submit("cat".to_string(), true), CoalesceAction::Dispatch);
    assert_eq!(c.submit("cat".to_string(), true), CoalesceAction::SkipDuplicate);
}

#[test]
fn duplicate_recognized_before_engine_state() {
    let mut c = QueryCoalescer::new();
    assert_eq!(c.submit("dog".to_string(), true), CoalesceAction::Dispatch);
    // equal text with the engine down is still a duplicate, not EngineNotReady
    assert_eq!(c.submit("dog".to_string(), false), CoalesceAction::SkipDuplicate);
}

#[test]
fn alternating_queries_all_dispatch() {
    let mut c = QueryCoalescer::new();
    assert_eq!(c.submit("a".to_string(), true), CoalesceAction::Dispatch);
    assert_eq!(c.submit("b".to_string(), true), CoalesceAction::Dispatch);
    // not consecutive: "a" again is a fresh dispatch
    assert_eq!(c.submit("a".to_string(), true), CoalesceAction::Dispatch);
}
