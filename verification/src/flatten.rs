//! Result flattener: turns one per-word result's recursively nested
//! definition trees into the bounded two-level section model. All depths of
//! one dictionary source fold into a single flat content list; content is
//! deduplicated by the order-preserving rule "skip an item equal to the
//! last one pushed". This is a deliberate choice over a set-based dedup:
//! content order reflects definition order, and a child node repeating its
//! parent's text is the common noise case.

use crate::defs::{Def, DefModel, WrapperDef, WrapperModel};
use crate::sections::{
    ExampleModel, ModelEq, SectionT, SectionTModel, SectionTop, SectionTopModel, SectionsR,
    SectionsRModel, WordType, WordTypeModel,
};
use crate::wordtype::{classify, classify_label, lower_of, lowercase};
use vstd::prelude::*;

verus! {

/// The dedup rule: append `m` unless it equals the last element.
pub open spec fn push_dedup_spec<M>(s: Seq<M>, m: M) -> Seq<M> {
    if s.len() > 0 && s.last() == m {
        s
    } else {
        s.push(m)
    }
}

/// No two adjacent elements are equal.
pub open spec fn no_adjacent_dups<M>(s: Seq<M>) -> bool {
    forall|i: int| 0 < i < s.len() ==> s[i - 1] != #[trigger] s[i]
}

/// Append `item` unless it equals the vector's last element, comparing
/// whole items on their models.
pub fn push_dedup<T: ModelEq>(v: &mut Vec<T>, item: T)
    ensures
        final(v).deep_view() == push_dedup_spec(old(v).deep_view(), item.deep_view()),
{
    let n = v.len();
    let skip = if n > 0 {
        v[n - 1].model_eq(&item)
    } else {
        false
    };
    if !skip {
        v.push(item);
        proof {
            assert(v.deep_view() =~= old(v).deep_view().push(item.deep_view()));
        }
    }
}

/// The dedup rule never lets two equal items stand next to each other.
pub proof fn lemma_push_dedup_no_adjacent<M>(s: Seq<M>, m: M)
    requires
        no_adjacent_dups(s),
    ensures
        no_adjacent_dups(push_dedup_spec(s, m)),
{
}

/// One `Example` content item per example entry, in order, each subject to
/// the dedup rule.
pub open spec fn apply_examples(c: Seq<SectionTModel>, exs: Seq<ExampleModel>) -> Seq<
    SectionTModel,
>
    decreases exs.len(),
{
    if exs.len() == 0 {
        c
    } else {
        apply_examples(
            push_dedup_spec(c, SectionTModel::Example { text: exs[0] }),
            exs.drop_first(),
        )
    }
}

proof fn lemma_apply_examples_push(c: Seq<SectionTModel>, exs: Seq<ExampleModel>, x: ExampleModel)
    ensures
        apply_examples(c, exs.push(x)) == push_dedup_spec(
            apply_examples(c, exs),
            SectionTModel::Example { text: x },
        ),
    decreases exs.len(),
{
    if exs.len() == 0 {
        assert(exs.push(x)[0] == x);
        assert(exs.push(x).drop_first() =~= Seq::<ExampleModel>::empty());
        assert(apply_examples(
            push_dedup_spec(c, SectionTModel::Example { text: x }),
            Seq::<ExampleModel>::empty(),
        ) == push_dedup_spec(c, SectionTModel::Example { text: x }));
    } else {
        assert(exs.push(x)[0] == exs[0]);
        assert(exs.push(x).drop_first() =~= exs.drop_first().push(x));
        lemma_apply_examples_push(
            push_dedup_spec(c, SectionTModel::Example { text: exs[0] }),
            exs.drop_first(),
            x,
        );
    }
}

/// One node's own contribution to its section, in field order:
/// pronunciation overwrites the section's (last write wins), etymology,
/// info, one combined explanation, examples — each through the dedup rule —
/// and a type label replaces the classification (never cleared when
/// absent).
pub open spec fn flatten_node(sec: SectionsRModel, d: DefModel) -> SectionsRModel {
    let ipa1 = match d.pronunciation {
        Option::None => sec.ipa,
        Option::Some(p) => Option::Some(p),
    };
    let c1 = sec.content;
    let c2 = match d.etymology {
        Option::None => c1,
        Option::Some(e) => push_dedup_spec(c1, SectionTModel::Etymology { lines: e }),
    };
    let c3 = match d.info {
        Option::None => c2,
        Option::Some(t) => push_dedup_spec(c2, SectionTModel::Info { text: t }),
    };
    let c4 = if d.cn is Some || d.en is Some {
        push_dedup_spec(c3, SectionTModel::Explain { en: d.en, cn: d.cn })
    } else {
        c3
    };
    let c5 = match d.examples {
        Option::None => c4,
        Option::Some(exs) => apply_examples(c4, exs),
    };
    let kind1 = match d.type_label {
        Option::None => sec.kind,
        Option::Some(ty) => Option::Some(
            WordTypeModel { label: classify_label(lower_of(ty)), text: lower_of(ty) },
        ),
    };
    SectionsRModel { title_l2: sec.title_l2, ipa: ipa1, kind: kind1, content: c5 }
}

/// Depth-first, source-order fold of a whole definition tree into one
/// section: the node itself, then every child, all into the same section.
pub open spec fn flatten_tree(sec: SectionsRModel, d: DefModel) -> SectionsRModel
    decreases d,
{
    flatten_children(flatten_node(sec, d), d.definitions)
}

/// Fold each tree of `ds`, left to right, into the same section.
pub open spec fn flatten_children(sec: SectionsRModel, ds: Seq<DefModel>) -> SectionsRModel
    decreases ds,
{
    if ds.len() == 0 {
        sec
    } else {
        flatten_children(flatten_tree(sec, ds[0]), ds.drop_first())
    }
}

proof fn lemma_flatten_children_push(sec: SectionsRModel, ds: Seq<DefModel>, d: DefModel)
    ensures
        flatten_children(sec, ds.push(d)) == flatten_tree(flatten_children(sec, ds), d),
    decreases ds.len(),
{
    if ds.len() == 0 {
        assert(ds.push(d)[0] == d);
        assert(ds.push(d).drop_first() =~= Seq::<DefModel>::empty());
        assert(flatten_children(flatten_tree(sec, d), Seq::<DefModel>::empty())
            == flatten_tree(sec, d));
        assert(flatten_children(sec, Seq::<DefModel>::empty()) == sec);
    } else {
        assert(ds.push(d)[0] == ds[0]);
        assert(ds.push(d).drop_first() =~= ds.drop_first().push(d));
        lemma_flatten_children_push(flatten_tree(sec, ds[0]), ds.drop_first(), d);
    }
}

/// Recursively flatten one definition tree into `sec`: the analog of the
/// renderer's per-source visit, accumulating into a single flat section.
pub fn render_def(de: &Def, sec: &mut SectionsR)
    ensures
        final(sec).deep_view() == flatten_tree(old(sec).deep_view(), de.deep_view()),
    decreases *de,
{
    let ghost sec0 = sec.deep_view();
    let ghost dm = de.deep_view();
    if let Some(p) = &de.pronunciation {
        let dup = p.clone();
        proof {
            assert(dup.deep_view() =~= p.deep_view());
        }
        sec.ipa = Some(dup);
    }
    if let Some(e) = &de.etymology {
        let lines = e.clone();
        proof {
            assert(lines.deep_view() =~= e.deep_view());
        }
        push_dedup(&mut sec.content, SectionT::Etymology { lines });
    }
    if let Some(t) = &de.info {
        push_dedup(&mut sec.content, SectionT::Info { text: t.clone() });
    }
    if de.cn.is_some() || de.en.is_some() {
        let en = crate::sections::dup_opt_string(&de.en);
        let cn = crate::sections::dup_opt_string(&de.cn);
        push_dedup(&mut sec.content, SectionT::Explain { en, cn });
    }
    if let Some(exs) = &de.examples {
        let ghost pre = sec.deep_view();
        let ghost c4 = sec.content.deep_view();
        let n = exs.len();
        let mut j: usize = 0;
        while j < n
            invariant
                n == exs@.len(),
                j <= n,
                sec.deep_view().title_l2 == pre.title_l2,
                sec.deep_view().ipa == pre.ipa,
                sec.deep_view().kind == pre.kind,
                sec.content.deep_view() == apply_examples(c4, exs.deep_view().subrange(0, j as int)),
            decreases n - j,
        {
            let item = exs[j].duplicate();
            push_dedup(&mut sec.content, SectionT::Example { text: item });
            proof {
                assert(exs.deep_view().subrange(0, j + 1) =~= exs.deep_view().subrange(
                    0,
                    j as int,
                ).push(exs.deep_view()[j as int]));
                lemma_apply_examples_push(
                    c4,
                    exs.deep_view().subrange(0, j as int),
                    exs.deep_view()[j as int],
                );
            }
            j += 1;
        }
        proof {
            assert(exs.deep_view().subrange(0, n as int) =~= exs.deep_view());
        }
    }
    if let Some(ty) = &de.type_label {
        let lower = lowercase(ty.as_str());
        let label = classify(lower.as_str());
        sec.kind = Some(WordType { label, text: lower });
    }
    proof {
        assert(sec.deep_view() =~= flatten_node(sec0, dm));
    }
    if let Some(v) = &de.definitions {
        let ghost base = sec.deep_view();
        let n = v.len();
        let mut i: usize = 0;
        proof {
            crate::defs::lemma_def_seq_model(v@);
            assert(dm.definitions.len() == n);
        }
        while i < n
            invariant
                n == v@.len(),
                n == dm.definitions.len(),
                i <= n,
                dm == de.deep_view(),
                de.definitions == Option::Some(*v),
                forall|k: int| 0 <= k < n ==> dm.definitions[k] == #[trigger] v@[k].deep_view(),
                sec.deep_view() == flatten_children(base, dm.definitions.subrange(0, i as int)),
            decreases n - i,
        {
            proof {
                assert(decreases_to!(*de => v@[i as int]));
            }
            render_def(&v[i], sec);
            proof {
                assert(dm.definitions.subrange(0, i + 1) =~= dm.definitions.subrange(
                    0,
                    i as int,
                ).push(dm.definitions[i as int]));
                lemma_flatten_children_push(
                    base,
                    dm.definitions.subrange(0, i as int),
                    dm.definitions[i as int],
                );
            }
            i += 1;
        }
        proof {
            assert(dm.definitions.subrange(0, n as int) =~= dm.definitions);
        }
    } else {
        proof {
            assert(dm.definitions =~= Seq::<DefModel>::empty());
        }
    }
}

/// Sections accumulated for one headword: per `(source, tree)` pair a
/// fresh section labelled with the source name, the tree folded into it,
/// and the finished section appended through the dedup rule.
pub open spec fn flatten_items(
    acc: Seq<SectionsRModel>,
    items: Seq<(Seq<char>, DefModel)>,
) -> Seq<SectionsRModel>
    decreases items.len(),
{
    if items.len() == 0 {
        acc
    } else {
        let sec0 = SectionsRModel {
            title_l2: Option::Some(items[0].0),
            ipa: Option::None,
            kind: Option::None,
            content: Seq::<SectionTModel>::empty(),
        };
        flatten_items(push_dedup_spec(acc, flatten_tree(sec0, items[0].1)), items.drop_first())
    }
}

proof fn lemma_flatten_items_push(
    acc: Seq<SectionsRModel>,
    items: Seq<(Seq<char>, DefModel)>,
    it: (Seq<char>, DefModel),
)
    ensures
        flatten_items(acc, items.push(it)) == ({
            let sec0 = SectionsRModel {
                title_l2: Option::Some(it.0),
                ipa: Option::None,
                kind: Option::None,
                content: Seq::<SectionTModel>::empty(),
            };
            push_dedup_spec(flatten_items(acc, items), flatten_tree(sec0, it.1))
        }),
    decreases items.len(),
{
    if items.len() == 0 {
        assert(items.push(it)[0] == it);
        assert(items.push(it).drop_first() =~= Seq::<(Seq<char>, DefModel)>::empty());
        let sec0 = SectionsRModel {
            title_l2: Option::Some(it.0),
            ipa: Option::None,
            kind: Option::None,
            content: Seq::<SectionTModel>::empty(),
        };
        assert(flatten_items(
            push_dedup_spec(acc, flatten_tree(sec0, it.1)),
            Seq::<(Seq<char>, DefModel)>::empty(),
        ) == push_dedup_spec(acc, flatten_tree(sec0, it.1)));
    } else {
        assert(items.push(it)[0] == items[0]);
        assert(items.push(it).drop_first() =~= items.drop_first().push(it));
        let sec0 = SectionsRModel {
            title_l2: Option::Some(items[0].0),
            ipa: Option::None,
            kind: Option::None,
            content: Seq::<SectionTModel>::empty(),
        };
        lemma_flatten_items_push(
            push_dedup_spec(acc, flatten_tree(sec0, items[0].1)),
            items.drop_first(),
            it,
        );
    }
}

/// The whole display model of one per-word result: the headword on top,
/// one deduplicated section per dictionary source below it.
pub open spec fn flatten_word_spec(w: WrapperModel) -> SectionTopModel {
    SectionTopModel {
        title_l1: w.word,
        sections: flatten_items(Seq::<SectionsRModel>::empty(), w.items),
    }
}

/// Flatten one per-word result group into its top-level section.
pub fn flatten_word(per: &WrapperDef) -> (top: SectionTop)
    ensures
        top.deep_view() == flatten_word_spec(per.deep_view()),
{
    let ghost w = per.deep_view();
    let mut sections: Vec<SectionsR> = Vec::new();
    let n = per.items.len();
    let mut i: usize = 0;
    proof {
        assert(sections.deep_view() =~= Seq::<SectionsRModel>::empty());
        assert(w.items.len() == n);
    }
    while i < n
        invariant
            n == per.items@.len(),
            n == w.items.len(),
            i <= n,
            w == per.deep_view(),
            forall|k: int|
                0 <= k < n ==> #[trigger] w.items[k] == (
                per.items@[k].0@,
                per.items@[k].1.deep_view(),
                ),
            sections.deep_view() == flatten_items(
                Seq::<SectionsRModel>::empty(),
                w.items.subrange(0, i as int),
            ),
        decreases n - i,
    {
        let mut sec = SectionsR {
            title_l2: Some(per.items[i].0.clone()),
            ipa: None,
            kind: None,
            content: Vec::new(),
        };
        proof {
            assert(sec.content.deep_view() =~= Seq::<SectionTModel>::empty());
            assert(sec.deep_view() =~= (SectionsRModel {
                title_l2: Option::Some(w.items[i as int].0),
                ipa: Option::None,
                kind: Option::None,
                content: Seq::<SectionTModel>::empty(),
            }));
        }
        render_def(&per.items[i].1, &mut sec);
        push_dedup(&mut sections, sec);
        proof {
            assert(w.items.subrange(0, i + 1) =~= w.items.subrange(0, i as int).push(
                w.items[i as int],
            ));
            lemma_flatten_items_push(
                Seq::<SectionsRModel>::empty(),
                w.items.subrange(0, i as int),
                w.items[i as int],
            );
        }
        i += 1;
    }
    proof {
        assert(w.items.subrange(0, n as int) =~= w.items);
    }
    SectionTop { title_l1: per.word.clone(), sections }
}

/// Top-level fold over all per-word results, each flattened and appended
/// through the dedup rule.
pub open spec fn flatten_results_fold(
    acc: Seq<SectionTopModel>,
    rs: Seq<WrapperModel>,
) -> Seq<SectionTopModel>
    decreases rs.len(),
{
    if rs.len() == 0 {
        acc
    } else {
        flatten_results_fold(push_dedup_spec(acc, flatten_word_spec(rs[0])), rs.drop_first())
    }
}

proof fn lemma_flatten_results_push(
    acc: Seq<SectionTopModel>,
    rs: Seq<WrapperModel>,
    r: WrapperModel,
)
    ensures
        flatten_results_fold(acc, rs.push(r)) == push_dedup_spec(
            flatten_results_fold(acc, rs),
            flatten_word_spec(r),
        ),
    decreases rs.len(),
{
    if rs.len() == 0 {
        assert(rs.push(r)[0] == r);
        assert(rs.push(r).drop_first() =~= Seq::<WrapperModel>::empty());
        assert(flatten_results_fold(
            push_dedup_spec(acc, flatten_word_spec(r)),
            Seq::<WrapperModel>::empty(),
        ) == push_dedup_spec(acc, flatten_word_spec(r)));
    } else {
        assert(rs.push(r)[0] == rs[0]);
        assert(rs.push(r).drop_first() =~= rs.drop_first().push(r));
        lemma_flatten_results_push(
            push_dedup_spec(acc, flatten_word_spec(rs[0])),
            rs.drop_first(),
            r,
        );
    }
}

/// Flatten every per-word result of one completed search into the ordered,
/// deduplicated sequence of top-level sections that gets published.
pub fn flatten_results(rx: &Vec<WrapperDef>) -> (tops: Vec<SectionTop>)
    ensures
        tops.deep_view() == flatten_results_fold(Seq::<SectionTopModel>::empty(), rx.deep_view()),
        wf_tops(tops.deep_view()),
{
    proof {
        lemma_published_tree_wf(rx.deep_view());
    }
    let mut tops: Vec<SectionTop> = Vec::new();
    let n = rx.len();
    let mut i: usize = 0;
    proof {
        assert(tops.deep_view() =~= Seq::<SectionTopModel>::empty());
    }
    while i < n
        invariant
            n == rx@.len(),
            i <= n,
            forall|k: int|
                0 <= k < n ==> #[trigger] rx.deep_view()[k] == rx@[k].deep_view(),
            tops.deep_view() == flatten_results_fold(
                Seq::<SectionTopModel>::empty(),
                rx.deep_view().subrange(0, i as int),
            ),
        decreases n - i,
    {
        let top = flatten_word(&rx[i]);
        push_dedup(&mut tops, top);
        proof {
            assert(rx.deep_view().subrange(0, i + 1) =~= rx.deep_view().subrange(0, i as int).push(
                rx.deep_view()[i as int],
            ));
            lemma_flatten_results_push(
                Seq::<SectionTopModel>::empty(),
                rx.deep_view().subrange(0, i as int),
                rx.deep_view()[i as int],
            );
        }
        i += 1;
    }
    proof {
        assert(rx.deep_view().subrange(0, n as int) =~= rx.deep_view());
    }
    tops
}

/// Dedup correctness: when a child repeats exactly its parent's `Explain`
/// content — the parent carries translation text, no examples of its own,
/// and the single child repeats the same translation pair and contributes
/// nothing else — flattening the parent's tree yields the parent's items
/// alone, with one `Explain`, not two.
pub proof fn lemma_dedup_explain(sec: SectionsRModel, parent: DefModel, child: DefModel)
    requires
        parent.en is Some || parent.cn is Some,
        parent.examples is None,
        parent.definitions == seq![child],
        child.en == parent.en,
        child.cn == parent.cn,
        child.etymology is None,
        child.info is None,
        child.examples is None,
        child.definitions == Seq::<DefModel>::empty(),
    ensures
        flatten_tree(sec, parent).content == flatten_node(sec, parent).content,
        flatten_node(sec, parent).content.last() == (SectionTModel::Explain {
            en: parent.en,
            cn: parent.cn,
        }),
{
    let after = flatten_node(sec, parent);
    assert(parent.definitions[0] == child);
    assert(parent.definitions.drop_first() =~= Seq::<DefModel>::empty());
    let after_child = flatten_node(after, child);
    assert(after_child.content == after.content);
    assert(flatten_tree(after, child) == after_child);
}


/// A per-source section is internally consistent when its content obeys
/// the dedup rule's invariant.
pub open spec fn wf_section(s: SectionsRModel) -> bool {
    no_adjacent_dups(s.content)
}

/// A top-level section is internally consistent when its section list
/// obeys the dedup invariant and every section does too.
pub open spec fn wf_top(t: SectionTopModel) -> bool {
    &&& no_adjacent_dups(t.sections)
    &&& forall|i: int| 0 <= i < t.sections.len() ==> wf_section(#[trigger] t.sections[i])
}

/// A whole published tree is internally consistent.
pub open spec fn wf_tops(ts: Seq<SectionTopModel>) -> bool {
    &&& no_adjacent_dups(ts)
    &&& forall|i: int| 0 <= i < ts.len() ==> wf_top(#[trigger] ts[i])
}

proof fn lemma_apply_examples_nad(c: Seq<SectionTModel>, exs: Seq<ExampleModel>)
    requires
        no_adjacent_dups(c),
    ensures
        no_adjacent_dups(apply_examples(c, exs)),
    decreases exs.len(),
{
    if exs.len() > 0 {
        lemma_push_dedup_no_adjacent(c, SectionTModel::Example { text: exs[0] });
        lemma_apply_examples_nad(
            push_dedup_spec(c, SectionTModel::Example { text: exs[0] }),
            exs.drop_first(),
        );
    }
}

proof fn lemma_flatten_node_nad(sec: SectionsRModel, d: DefModel)
    requires
        no_adjacent_dups(sec.content),
    ensures
        no_adjacent_dups(flatten_node(sec, d).content),
{
    let c1 = sec.content;
    let c2 = match d.etymology {
        Option::None => c1,
        Option::Some(e) => push_dedup_spec(c1, SectionTModel::Etymology { lines: e }),
    };
    let c3 = match d.info {
        Option::None => c2,
        Option::Some(t) => push_dedup_spec(c2, SectionTModel::Info { text: t }),
    };
    let c4 = if d.cn is Some || d.en is Some {
        push_dedup_spec(c3, SectionTModel::Explain { en: d.en, cn: d.cn })
    } else {
        c3
    };
    if d.etymology is Some {
        lemma_push_dedup_no_adjacent(c1, SectionTModel::Etymology { lines: d.etymology->0 });
    }
    if d.info is Some {
        lemma_push_dedup_no_adjacent(c2, SectionTModel::Info { text: d.info->0 });
    }
    if d.cn is Some || d.en is Some {
        lemma_push_dedup_no_adjacent(c3, SectionTModel::Explain { en: d.en, cn: d.cn });
    }
    if d.examples is Some {
        lemma_apply_examples_nad(c4, d.examples->0);
    }
}

proof fn lemma_flatten_tree_nad(sec: SectionsRModel, d: DefModel)
    requires
        no_adjacent_dups(sec.content),
    ensures
        no_adjacent_dups(flatten_tree(sec, d).content),
    decreases d,
{
    lemma_flatten_node_nad(sec, d);
    lemma_flatten_children_nad(flatten_node(sec, d), d.definitions);
}

proof fn lemma_flatten_children_nad(sec: SectionsRModel, ds: Seq<DefModel>)
    requires
        no_adjacent_dups(sec.content),
    ensures
        no_adjacent_dups(flatten_children(sec, ds).content),
    decreases ds,
{
    if ds.len() > 0 {
        lemma_flatten_tree_nad(sec, ds[0]);
        lemma_flatten_children_nad(flatten_tree(sec, ds[0]), ds.drop_first());
    }
}

proof fn lemma_push_dedup_all<M>(s: Seq<M>, m: M, p: spec_fn(M) -> bool)
    requires
        forall|i: int| 0 <= i < s.len() ==> p(#[trigger] s[i]),
        p(m),
    ensures
        forall|i: int|
            0 <= i < push_dedup_spec(s, m).len() ==> p(#[trigger] push_dedup_spec(s, m)[i]),
{
}

proof fn lemma_flatten_items_wf(acc: Seq<SectionsRModel>, items: Seq<(Seq<char>, DefModel)>)
    requires
        no_adjacent_dups(acc),
        forall|i: int| 0 <= i < acc.len() ==> wf_section(#[trigger] acc[i]),
    ensures
        no_adjacent_dups(flatten_items(acc, items)),
        forall|i: int|
            0 <= i < flatten_items(acc, items).len() ==> wf_section(
                #[trigger] flatten_items(acc, items)[i],
            ),
    decreases items.len(),
{
    if items.len() > 0 {
        let sec0 = SectionsRModel {
            title_l2: Option::Some(items[0].0),
            ipa: Option::None,
            kind: Option::None,
            content: Seq::<SectionTModel>::empty(),
        };
        let s1 = flatten_tree(sec0, items[0].1);
        lemma_flatten_tree_nad(sec0, items[0].1);
        lemma_push_dedup_no_adjacent(acc, s1);
        lemma_push_dedup_all(acc, s1, |s: SectionsRModel| wf_section(s));
        lemma_flatten_items_wf(push_dedup_spec(acc, s1), items.drop_first());
    }
}

proof fn lemma_flatten_results_wf_fold(acc: Seq<SectionTopModel>, rs: Seq<WrapperModel>)
    requires
        wf_tops(acc),
    ensures
        wf_tops(flatten_results_fold(acc, rs)),
    decreases rs.len(),
{
    if rs.len() > 0 {
        let t = flatten_word_spec(rs[0]);
        lemma_flatten_items_wf(Seq::<SectionsRModel>::empty(), rs[0].items);
        lemma_push_dedup_no_adjacent(acc, t);
        lemma_push_dedup_all(acc, t, |x: SectionTopModel| wf_top(x));
        lemma_flatten_results_wf_fold(push_dedup_spec(acc, t), rs.drop_first());
    }
}

/// Snapshot consistency, structural half: whatever per-word results a
/// completed search hands over, the tree that gets published is internally
/// consistent throughout — the section list of every headword and the
/// content of every section obey the dedup invariant. Atomicity of the
/// publication itself is the publisher's contract.
pub proof fn lemma_published_tree_wf(rs: Seq<WrapperModel>)
    ensures
        wf_tops(flatten_results_fold(Seq::<SectionTopModel>::empty(), rs)),
{
    lemma_flatten_results_wf_fold(Seq::<SectionTopModel>::empty(), rs);
}

} // verus!
