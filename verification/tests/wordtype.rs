use hoverpanel::sections::WordTypeId;
use hoverpanel::wordtype::{classify, str_contains};

#[test]
fn substring_search_finds_and_rejects() {
    assert!(str_contains("transitive verb", "verb"));
    assert!(!str_contains("pronoun", "verb"));
    assert!(str_contains("\u{540d}\u{8bcd}\u{7528}\u{6cd5}", "\u{540d}\u{8bcd}"));
    // the empty needle is everywhere, and a needle longer than the hay nowhere
    assert!(str_contains("abc", ""));
    assert!(!str_contains("ab", "abc"));
}

#[test]
fn verb_outranks_every_other_class() {
    assert_eq!(classify("noun and verb"), WordTypeId::Verb);
    assert_eq!(classify("vt. something adv"), WordTypeId::Verb);
    assert_eq!(classify("\u{52a8}\u{8bcd}"), WordTypeId::Verb);
}

#[test]
fn noun_outranks_adj_and_adv() {
    assert_eq!(classify("adj n."), WordTypeId::Noun);
    assert_eq!(classify("\u{540d}\u{8bcd}"), WordTypeId::Noun);
}

#[test]
fn adj_and_adv_and_other() {
    assert_eq!(classify("adjective"), WordTypeId::Adj);
    assert_eq!(classify("\u{5f62}\u{5bb9}\u{8bcd}"), WordTypeId::Adj);
    assert_eq!(classify("adv"), WordTypeId::Adv);
    assert_eq!(classify("\u{526f}\u{8bcd}"), WordTypeId::Adv);
    assert_eq!(classify("particle"), WordTypeId::Other);
}
