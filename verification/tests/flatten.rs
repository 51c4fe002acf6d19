use hoverpanel::defs::{Def, WrapperDef};
use hoverpanel::flatten::{flatten_results, flatten_word, push_dedup, render_def};
use hoverpanel::sections::{Example, MaybeString, SectionT, SectionsR, WordTypeId};

fn explain_def(en: &str, cn: &str) -> Def {
    let mut d = Def::empty();
    d.en = Some(en.to_string());
    d.cn = Some(cn.to_string());
    d
}

#[test]
fn child_repeating_parent_explain_is_deduplicated() {
    let mut parent = explain_def("a greeting", "wen hou");
    let child = explain_def("a greeting", "wen hou");
    parent.definitions = Some(vec![child]);
    let mut sec = SectionsR::new();
    render_def(&parent, &mut sec);
    assert_eq!(
        sec.content,
        vec![SectionT::Explain { en: Some("a greeting".to_string()), cn: Some("wen hou".to_string()) }]
    );
}

#[test]
fn differing_child_explain_is_kept() {
    let mut parent = explain_def("one", "yi");
    let child = explain_def("two", "er");
    parent.definitions = Some(vec![child]);
    let mut sec = SectionsR::new();
    render_def(&parent, &mut sec);
    assert_eq!(sec.content.len(), 2);
}

#[test]
fn label_with_noun_and_verb_classifies_as_verb() {
    let mut d = Def::empty();
    d.type_label = Some("noun or verb".to_string());
    let mut sec = SectionsR::new();
    render_def(&d, &mut sec);
    let kind = sec.kind.expect("a type label must classify");
    assert_eq!(kind.label, WordTypeId::Verb);
}

#[test]
fn classification_happens_on_the_lower_cased_label() {
    let mut d = Def::empty();
    d.type_label = Some("NOUN".to_string());
    let mut sec = SectionsR::new();
    render_def(&d, &mut sec);
    let kind = sec.kind.expect("a type label must classify");
    // to_lowercase really ran: the stored text is the folded form
    assert_eq!(kind.text, "noun".to_string());
    assert_eq!(kind.label, WordTypeId::Noun);
}

#[test]
fn chinese_labels_classify() {
    let mut d = Def::empty();
    d.type_label = Some("\u{526f}\u{8bcd}".to_string());
    let mut sec = SectionsR::new();
    render_def(&d, &mut sec);
    assert_eq!(sec.kind.expect("classified").label, WordTypeId::Adv);
}

#[test]
fn unknown_label_classifies_as_other() {
    let mut d = Def::empty();
    d.type_label = Some("interjection".to_string());
    let mut sec = SectionsR::new();
    render_def(&d, &mut sec);
    assert_eq!(sec.kind.expect("classified").label, WordTypeId::Other);
}

#[test]
fn deeper_type_label_overwrites_and_absent_one_is_kept() {
    let mut parent = Def::empty();
    parent.type_label = Some("noun".to_string());
    let mut child = Def::empty();
    child.type_label = Some("verb".to_string());
    let grandchild = Def::empty();
    child.definitions = Some(vec![grandchild]);
    parent.definitions = Some(vec![child]);
    let mut sec = SectionsR::new();
    render_def(&parent, &mut sec);
    // the child overwrote the parent's class; the grandchild, with no
    // label, cleared nothing
    assert_eq!(sec.kind.expect("classified").label, WordTypeId::Verb);
}

#[test]
fn pronunciation_last_write_wins() {
    let mut parent = Def::empty();
    parent.pronunciation = Some(vec!["one".to_string()]);
    let mut child = Def::empty();
    child.pronunciation = Some(vec!["two".to_string()]);
    parent.definitions = Some(vec![child]);
    let mut sec = SectionsR::new();
    render_def(&parent, &mut sec);
    assert_eq!(sec.ipa, Some(vec!["two".to_string()]));
}

#[test]
fn etymology_info_and_examples_become_items_in_field_order() {
    let mut d = Def::empty();
    d.etymology = Some(vec!["old norse".to_string()]);
    d.info = Some("colloquial".to_string());
    d.en = Some("hi".to_string());
    d.examples = Some(vec![
        Example { texts: vec![MaybeString::Str("hi there".to_string())] },
        Example { texts: vec![MaybeString::Str("oh hi".to_string())] },
    ]);
    let mut sec = SectionsR::new();
    render_def(&d, &mut sec);
    assert_eq!(sec.content.len(), 5);
    assert!(matches!(sec.content[0], SectionT::Etymology { .. }));
    assert!(matches!(sec.content[1], SectionT::Info { .. }));
    assert!(matches!(sec.content[2], SectionT::Explain { .. }));
    assert!(matches!(sec.content[3], SectionT::Example { .. }));
    assert!(matches!(sec.content[4], SectionT::Example { .. }));
}

#[test]
fn node_with_no_recognized_fields_still_recurses() {
    let mut parent = Def::empty();
    let child = explain_def("deep", "shen");
    parent.definitions = Some(vec![child]);
    let mut sec = SectionsR::new();
    render_def(&parent, &mut sec);
    assert_eq!(sec.content.len(), 1);
}

#[test]
fn flatten_word_builds_one_section_per_source() {
    let per = WrapperDef {
        word: "hello".to_string(),
        items: vec![
            ("dict-a".to_string(), explain_def("greeting", "wen hou")),
            ("dict-b".to_string(), explain_def("salutation", "zhi yi")),
        ],
    };
    let top = flatten_word(&per);
    assert_eq!(top.title_l1, "hello".to_string());
    assert_eq!(top.sections.len(), 2);
    assert_eq!(top.sections[0].title_l2, Some("dict-a".to_string()));
    assert_eq!(top.sections[1].title_l2, Some("dict-b".to_string()));
}

#[test]
fn flatten_results_drops_adjacent_identical_words() {
    let a = WrapperDef {
        word: "echo".to_string(),
        items: vec![("d".to_string(), explain_def("sound", "hui sheng"))],
    };
    let b = WrapperDef {
        word: "echo".to_string(),
        items: vec![("d".to_string(), explain_def("sound", "hui sheng"))],
    };
    let tops = flatten_results(&vec![a, b]);
    assert_eq!(tops.len(), 1);
}

#[test]
fn push_dedup_skips_only_the_last_pushed() {
    let mut v: Vec<SectionT> = Vec::new();
    let x = SectionT::Info { text: "x".to_string() };
    let y = SectionT::Info { text: "y".to_string() };
    push_dedup(&mut v, x.clone());
    push_dedup(&mut v, x.clone());
    push_dedup(&mut v, y.clone());
    push_dedup(&mut v, x.clone());
    assert_eq!(v, vec![x.clone(), y, x]);
}
