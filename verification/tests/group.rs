use hoverpanel::defs::Def;
use hoverpanel::group::collect_defs;

fn rec(word: &str, dict: Option<&str>, en: &str) -> Def {
    let mut d = Def::empty();
    d.word = Some(word.to_string());
    d.dict_name = dict.map(|s| s.to_string());
    d.en = Some(en.to_string());
    d
}

#[test]
fn groups_by_word_in_first_appearance_order() {
    let defs = vec![
        rec("b", Some("d1"), "one"),
        rec("a", Some("d1"), "two"),
        rec("b", Some("d1"), "three"),
    ];
    let map = collect_defs(defs);
    assert_eq!(map.len(), 2);
    assert_eq!(map[0].word, "b".to_string());
    assert_eq!(map[1].word, "a".to_string());
    // both "b" records in the one container, in input order
    let defs_b = map[0].items[0].1.definitions.as_ref().unwrap();
    assert_eq!(defs_b.len(), 2);
    assert_eq!(defs_b[0].en, Some("one".to_string()));
    assert_eq!(defs_b[1].en, Some("three".to_string()));
}

#[test]
fn groups_by_dictionary_inside_one_word() {
    let defs = vec![
        rec("w", Some("d1"), "one"),
        rec("w", Some("d2"), "two"),
        rec("w", Some("d1"), "three"),
    ];
    let map = collect_defs(defs);
    assert_eq!(map.len(), 1);
    let items = &map[0].items;
    assert_eq!(items.len(), 2);
    assert_eq!(items[0].0, "d1".to_string());
    assert_eq!(items[1].0, "d2".to_string());
    assert_eq!(items[0].1.definitions.as_ref().unwrap().len(), 2);
    assert_eq!(items[1].1.definitions.as_ref().unwrap().len(), 1);
}

#[test]
fn missing_dictionary_name_files_under_empty_string() {
    let defs = vec![rec("w", None, "one"), rec("w", Some(""), "two")];
    let map = collect_defs(defs);
    assert_eq!(map.len(), 1);
    assert_eq!(map[0].items.len(), 1);
    assert_eq!(map[0].items[0].0, "".to_string());
    assert_eq!(map[0].items[0].1.definitions.as_ref().unwrap().len(), 2);
}

#[test]
fn empty_input_gives_empty_map() {
    let map = collect_defs(Vec::new());
    assert!(map.is_empty());
}
