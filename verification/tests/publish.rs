use hoverpanel::clock::ActivationClock;
use hoverpanel::console::ConsoleCmd;
use hoverpanel::publish::Publisher;
use hoverpanel::sections::{SectionT, SectionTop, SectionsR};

fn tree(word: &str, text: &str) -> Vec<SectionTop> {
    let sec = SectionsR {
        title_l2: Some("dict".to_string()),
        ipa: None,
        kind: None,
        content: vec![SectionT::Info { text: text.to_string() }],
    };
    vec![
        SectionTop { title_l1: word.to_string(), sections: vec![sec.clone()] },
        SectionTop { title_l1: format!("{}-b", word), sections: vec![sec] },
    ]
}

#[test]
fn publish_replaces_the_whole_snapshot() {
    let mut publisher = Publisher::new();
    assert!(publisher.latest().is_empty());
    let a = tree("alpha", "first");
    publisher.publish(a.clone());
    assert_eq!(publisher.latest(), a);
    let b = tree("beta", "second");
    publisher.publish(b.clone());
    // append-free: the old tree is gone entirely
    assert_eq!(publisher.latest(), b);
}

#[test]
fn readers_see_the_published_tree() {
    let mut publisher = Publisher::new();
    let reader = publisher.reader();
    let a = tree("gamma", "third");
    publisher.publish(a.clone());
    assert_eq!(reader.read(), a);
    assert_eq!(reader.handle().read(), a);
}

#[test]
fn concurrent_readers_see_only_complete_trees() {
    let mut publisher = Publisher::new();
    let reader = publisher.reader();
    let a = tree("alpha", "first");
    let b = tree("beta", "second");
    publisher.publish(a.clone());
    crossbeam::scope(|s| {
        for _ in 0..4 {
            let r = reader.handle();
            let expect_a = a.clone();
            let expect_b = b.clone();
            s.spawn(move |_| {
                for _ in 0..500 {
                    let seen = r.read();
                    // either the old complete tree or the new complete
                    // tree, never a partially built one
                    assert!(seen == expect_a || seen == expect_b);
                }
            });
        }
        for i in 0..500 {
            publisher.publish(if i % 2 == 0 { b.clone() } else { a.clone() });
        }
    })
    .unwrap();
}

#[test]
fn clock_starts_empty_and_keeps_the_last_record() {
    let clock = ActivationClock::new();
    assert_eq!(clock.recent(), None);
    clock.record(123);
    assert_eq!(clock.recent(), Some(123));
    clock.record(456);
    let shared = clock.clone();
    assert_eq!(shared.recent(), Some(456));
}

#[test]
fn console_commands_carry_their_instant() {
    let cmd = ConsoleCmd::Show(7);
    assert_eq!(cmd, ConsoleCmd::Show(7));
    assert_ne!(cmd, ConsoleCmd::Show(8));
}
