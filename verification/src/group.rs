//! Grouping a flat list of definition records into per-word wrappers:
//! one wrapper per distinct headword, and inside it one container per
//! distinct dictionary source, holding that source's records in input
//! order. The wrappers live in a vector in first-appearance order with
//! unique headwords — the order is part of the contract.

use crate::defs::{def_model, def_seq_model, Def, DefModel, WrapperDef, WrapperModel};
use vstd::prelude::*;

verus! {

/// The headword a record files under; records are required to carry one.
pub open spec fn word_key(d: DefModel) -> Seq<char> {
    match d.word {
        Option::Some(w) => w,
        Option::None => Seq::<char>::empty(),
    }
}

/// The dictionary-source key of a record; a missing source name files
/// under the empty string.
pub open spec fn dict_key(d: DefModel) -> Seq<char> {
    match d.dict_name {
        Option::Some(s) => s,
        Option::None => Seq::<char>::empty(),
    }
}

/// A fresh per-source container: every field absent, the given records as
/// its children.
pub open spec fn group_container(ds: Seq<DefModel>) -> DefModel {
    DefModel {
        word: Option::None,
        title: Option::None,
        type_label: Option::None,
        dict_name: Option::None,
        cn: Option::None,
        en: Option::None,
        info: Option::None,
        t1: Option::None,
        t2: Option::None,
        pronunciation: Option::None,
        etymology: Option::None,
        examples: Option::None,
        definitions: ds,
    }
}

/// Index of the first wrapper for headword `w`, or `acc.len()` if none.
pub open spec fn find_word(acc: Seq<WrapperModel>, w: Seq<char>) -> int
    decreases acc.len(),
{
    if acc.len() == 0 {
        0
    } else if acc[0].word == w {
        0
    } else {
        1 + find_word(acc.drop_first(), w)
    }
}

/// Index of the first item for source key `k`, or `items.len()` if none.
pub open spec fn find_dict(items: Seq<(Seq<char>, DefModel)>, k: Seq<char>) -> int
    decreases items.len(),
{
    if items.len() == 0 {
        0
    } else if items[0].0 == k {
        0
    } else {
        1 + find_dict(items.drop_first(), k)
    }
}

/// `find_word` is the first matching index: everything before it
/// mismatches, and it matches unless it is the length.
pub proof fn lemma_find_word_props(acc: Seq<WrapperModel>, w: Seq<char>)
    ensures
        0 <= find_word(acc, w) <= acc.len(),
        forall|j: int| 0 <= j < find_word(acc, w) ==> acc[j].word != w,
        find_word(acc, w) < acc.len() ==> acc[find_word(acc, w)].word == w,
    decreases acc.len(),
{
    if acc.len() > 0 && acc[0].word != w {
        lemma_find_word_props(acc.drop_first(), w);
        assert forall|j: int| 0 <= j < find_word(acc, w) implies acc[j].word != w by {
            if j > 0 {
                assert(acc.drop_first()[j - 1] == acc[j]);
            }
        }
        if find_word(acc, w) < acc.len() {
            assert(acc.drop_first()[find_word(acc.drop_first(), w)] == acc[find_word(acc, w)]);
        }
    }
}

/// `find_dict` is the first matching index, as `find_word` is.
pub proof fn lemma_find_dict_props(items: Seq<(Seq<char>, DefModel)>, k: Seq<char>)
    ensures
        0 <= find_dict(items, k) <= items.len(),
        forall|j: int| 0 <= j < find_dict(items, k) ==> items[j].0 != k,
        find_dict(items, k) < items.len() ==> items[find_dict(items, k)].0 == k,
    decreases items.len(),
{
    if items.len() > 0 && items[0].0 != k {
        lemma_find_dict_props(items.drop_first(), k);
        assert forall|j: int| 0 <= j < find_dict(items, k) implies items[j].0 != k by {
            if j > 0 {
                assert(items.drop_first()[j - 1] == items[j]);
            }
        }
        if find_dict(items, k) < items.len() {
            assert(items.drop_first()[find_dict(items.drop_first(), k)] == items[find_dict(
                items,
                k,
            )]);
        }
    }
}

/// File one record into a wrapper: append to its source's container, or
/// open a new container for an unseen source.
pub open spec fn add_to_wrapper(wr: WrapperModel, d: DefModel) -> WrapperModel {
    let k = dict_key(d);
    let j = find_dict(wr.items, k);
    if j == wr.items.len() {
        WrapperModel { word: wr.word, items: wr.items.push((k, group_container(seq![d]))) }
    } else {
        let c = wr.items[j].1;
        let c2 = DefModel { definitions: c.definitions.push(d), ..c };
        WrapperModel { word: wr.word, items: wr.items.update(j, (wr.items[j].0, c2)) }
    }
}

/// File one record into the accumulated wrappers: into its headword's
/// wrapper, or a new wrapper at the end for an unseen headword.
pub open spec fn insert_def(acc: Seq<WrapperModel>, d: DefModel) -> Seq<WrapperModel> {
    let w = word_key(d);
    let i = find_word(acc, w);
    if i == acc.len() {
        acc.push(
            WrapperModel { word: w, items: seq![(dict_key(d), group_container(seq![d]))] },
        )
    } else {
        acc.update(i, add_to_wrapper(acc[i], d))
    }
}

/// The whole grouping: every record filed in order.
pub open spec fn collect_spec(defs: Seq<DefModel>) -> Seq<WrapperModel>
    decreases defs.len(),
{
    if defs.len() == 0 {
        Seq::<WrapperModel>::empty()
    } else {
        insert_def(collect_spec(defs.drop_last()), defs.last())
    }
}

fn find_word_index(map: &Vec<WrapperDef>, w: &String) -> (i: usize)
    ensures
        i as int == find_word(map.deep_view(), w@),
{
    let n = map.len();
    let mut i: usize = 0;
    while i < n
        invariant
            i <= n,
            n == map@.len(),
            forall|j: int| 0 <= j < i ==> map.deep_view()[j].word != w@,
        decreases n - i,
    {
        if map[i].word == *w {
            proof {
                lemma_find_word_props(map.deep_view(), w@);
                assert(map.deep_view()[i as int].word == w@);
            }
            return i;
        }
        proof {
            assert(map.deep_view()[i as int] == map@[i as int].deep_view());
        }
        i += 1;
    }
    proof {
        lemma_find_word_props(map.deep_view(), w@);
    }
    n
}

fn find_dict_index(items: &Vec<(String, Def)>, k: &String) -> (i: usize)
    ensures
        i as int == find_dict(items.deep_view(), k@),
{
    let n = items.len();
    let mut i: usize = 0;
    while i < n
        invariant
            i <= n,
            n == items@.len(),
            forall|j: int| 0 <= j < i ==> items.deep_view()[j].0 != k@,
        decreases n - i,
    {
        if items[i].0 == *k {
            proof {
                lemma_find_dict_props(items.deep_view(), k@);
                assert(items.deep_view()[i as int].0 == k@);
            }
            return i;
        }
        proof {
            assert(items.deep_view()[i as int] == items@[i as int].deep_view());
        }
        i += 1;
    }
    proof {
        lemma_find_dict_props(items.deep_view(), k@);
    }
    n
}

/// A container holding exactly the given record.
fn single_container(d: Def) -> (c: Def)
    ensures
        c.deep_view() == group_container(seq![d.deep_view()]),
{
    let mut ds: Vec<Def> = Vec::new();
    ds.push(d);
    let mut c = Def::empty();
    c.definitions = Some(ds);
    proof {
        crate::defs::lemma_def_seq_model(c.definitions.unwrap()@);
        assert(c.deep_view().definitions =~= seq![d.deep_view()]);
        assert(c.deep_view() =~= group_container(seq![d.deep_view()]));
    }
    c
}

/// Group a flat list of records, each carrying a headword, into per-word
/// wrappers in first-appearance order; within a wrapper, per-source
/// containers in first-appearance order, each holding its records in
/// input order.
pub fn collect_defs(defs: Vec<Def>) -> (map: Vec<WrapperDef>)
    requires
        forall|i: int| 0 <= i < defs@.len() ==> (#[trigger] defs@[i]).word is Some,
    ensures
        map.deep_view() == collect_spec(def_seq_model(defs@)),
{
    let ghost orig = defs@;
    let mut defs = defs;
    let mut map: Vec<WrapperDef> = Vec::new();
    proof {
        assert(map.deep_view() =~= Seq::<WrapperModel>::empty());
        assert(orig.subrange(0, 0) =~= Seq::<Def>::empty());
        assert(defs@ =~= orig.subrange(0, orig.len() as int));
    }
    while defs.len() > 0
        invariant
            defs@.len() <= orig.len(),
            forall|i: int| 0 <= i < orig.len() ==> (#[trigger] orig[i]).word is Some,
            defs@ =~= orig.subrange(orig.len() - defs@.len(), orig.len() as int),
            map.deep_view() == collect_spec(
                def_seq_model(orig.subrange(0, orig.len() - defs@.len())),
            ),
        decreases defs@.len(),
    {
        let ghost k = orig.len() - defs@.len();
        let d = defs.remove(0);
        proof {
            assert(d == orig[k]);
            assert(defs@ =~= orig.subrange(k + 1, orig.len() as int));
        }
        let ghost dm = d.deep_view();
        let ghost acc = map.deep_view();
        let w = match &d.word {
            Some(s) => s.clone(),
            None => String::new(),
        };
        let dict = match &d.dict_name {
            Some(s) => s.clone(),
            None => String::new(),
        };
        proof {
            assert(w@ == word_key(dm));
            assert(dict@ == dict_key(dm));
        }
        let wi = find_word_index(&map, &w);
        proof {
            lemma_find_word_props(acc, w@);
            assert(acc.len() == map@.len());
            if (wi as int) < acc.len() {
                assert(acc[wi as int] == map@[wi as int].deep_view());
            }
        }
        if wi == map.len() {
            let container = single_container(d);
            let mut items: Vec<(String, Def)> = Vec::new();
            items.push((dict, container));
            let wrapper = WrapperDef { word: w, items };
            map.push(wrapper);
            proof {
                assert(wrapper.deep_view().items =~= seq![
                    (dict_key(dm), group_container(seq![dm])),
                ]);
                assert(wrapper.deep_view() =~= (WrapperModel {
                    word: word_key(dm),
                    items: seq![(dict_key(dm), group_container(seq![dm]))],
                }));
                assert(map.deep_view() =~= insert_def(acc, dm));
            }
        } else {
            let mut wrapper = map.remove(wi);
            let ghost wr = wrapper.deep_view();
            proof {
                assert(wr == acc[wi as int]);
            }
            let di = find_dict_index(&wrapper.items, &dict);
            proof {
                lemma_find_dict_props(wrapper.items.deep_view(), dict@);
                assert(wrapper.items.deep_view().len() == wrapper.items@.len());
                if (di as int) < wrapper.items@.len() {
                    assert(wrapper.items.deep_view()[di as int] == wrapper.items@[
                        di as int
                    ].deep_view());
                }
            }
            if di == wrapper.items.len() {
                let container = single_container(d);
                wrapper.items.push((dict, container));
                proof {
                    assert(wrapper.deep_view().items =~= add_to_wrapper(wr, dm).items);
                    assert(wrapper.deep_view() =~= add_to_wrapper(wr, dm));
                }
            } else {
                let (key, mut container) = wrapper.items.remove(di);
                let ghost cm = container.deep_view();
                let mut ds = match container.definitions.take() {
                    Some(v) => v,
                    None => Vec::new(),
                };
                let ghost pre = ds@;
                proof {
                    assert(cm.definitions == def_seq_model(pre));
                }
                ds.push(d);
                container.definitions = Some(ds);
                proof {
                    let post = container.definitions.unwrap()@;
                    assert(post == pre.push(d));
                    assert(post.drop_last() =~= pre);
                    assert(post.last() == d);
                    assert(def_seq_model(post) == def_seq_model(post.drop_last()).push(
                        def_model(post.last()),
                    ));
                    assert(container.deep_view() =~= (DefModel {
                        definitions: cm.definitions.push(dm),
                        ..cm
                    }));
                }
                wrapper.items.insert(di, (key, container));
                proof {
                    assert(wrapper.deep_view() =~= add_to_wrapper(wr, dm));
                }
            }
            map.insert(wi, wrapper);
            proof {
                assert(map.deep_view() =~= acc.update(wi as int, add_to_wrapper(wr, dm)));
                assert(map.deep_view() =~= insert_def(acc, dm));
            }
        }
        proof {
            assert(orig.subrange(0, k + 1).drop_last() =~= orig.subrange(0, k));
            assert(orig.subrange(0, k + 1).last() == orig[k]);
            assert(def_seq_model(orig.subrange(0, k + 1)) == def_seq_model(
                orig.subrange(0, k + 1).drop_last(),
            ).push(def_model(orig.subrange(0, k + 1).last())));
            assert(def_seq_model(orig.subrange(0, k + 1)) =~= def_seq_model(
                orig.subrange(0, k),
            ).push(dm));
            let m2 = def_seq_model(orig.subrange(0, k + 1));
            assert(m2.len() > 0);
            assert(m2.drop_last() =~= def_seq_model(orig.subrange(0, k)));
            assert(m2.last() == dm);
            assert(collect_spec(m2) == insert_def(collect_spec(m2.drop_last()), m2.last()));
            assert(map.deep_view() == collect_spec(def_seq_model(orig.subrange(0, k + 1))));
        }
    }
    proof {
        assert(orig.subrange(0, orig.len() as int) =~= orig);
    }
    map
}


/// No two wrappers share a headword.
pub open spec fn words_unique(acc: Seq<WrapperModel>) -> bool {
    forall|i: int, j: int|
        0 <= i < j < acc.len() ==> #[trigger] acc[i].word != #[trigger] acc[j].word
}

/// No two items of one wrapper share a dictionary-source key.
pub open spec fn dicts_unique(items: Seq<(Seq<char>, DefModel)>) -> bool {
    forall|i: int, j: int|
        0 <= i < j < items.len() ==> #[trigger] items[i].0 != #[trigger] items[j].0
}

proof fn lemma_add_to_wrapper_dicts_unique(wr: WrapperModel, d: DefModel)
    requires
        dicts_unique(wr.items),
    ensures
        dicts_unique(add_to_wrapper(wr, d).items),
        add_to_wrapper(wr, d).word == wr.word,
{
    lemma_find_dict_props(wr.items, dict_key(d));
}

proof fn lemma_insert_def_unique(acc: Seq<WrapperModel>, d: DefModel)
    requires
        words_unique(acc),
        forall|i: int| 0 <= i < acc.len() ==> dicts_unique(#[trigger] acc[i].items),
    ensures
        words_unique(insert_def(acc, d)),
        forall|i: int|
            0 <= i < insert_def(acc, d).len() ==> dicts_unique(
                #[trigger] insert_def(acc, d)[i].items,
            ),
{
    lemma_find_word_props(acc, word_key(d));
    let i = find_word(acc, word_key(d));
    if i == acc.len() {
        let w2 = insert_def(acc, d);
        assert forall|p: int, q: int| 0 <= p < q < w2.len() implies #[trigger] w2[p].word
            != #[trigger] w2[q].word by {
            if q == w2.len() - 1 {
                assert(w2[p] == acc[p]);
            }
        }
    } else {
        lemma_add_to_wrapper_dicts_unique(acc[i], d);
    }
}

/// Grouping invariant: the wrappers that `collect_defs` builds carry
/// pairwise distinct headwords, and within each wrapper the
/// dictionary-source keys are pairwise distinct.
pub proof fn lemma_collect_defs_unique(defs: Seq<DefModel>)
    ensures
        words_unique(collect_spec(defs)),
        forall|i: int|
            0 <= i < collect_spec(defs).len() ==> dicts_unique(
                #[trigger] collect_spec(defs)[i].items,
            ),
    decreases defs.len(),
{
    if defs.len() > 0 {
        lemma_collect_defs_unique(defs.drop_last());
        lemma_insert_def_unique(collect_spec(defs.drop_last()), defs.last());
    }
}

} // verus!
