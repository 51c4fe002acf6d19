//! Definition records as delivered by the dictionary engine: a recursive
//! record with optional text fields and arbitrarily deep child definitions,
//! plus its mathematical model.

use crate::sections::{Example, ExampleModel};
use vstd::prelude::*;

verus! {

/// One nested definition record. Depth of `definitions` is unbounded in
/// the source data; every text field is optional.
#[derive(Debug, PartialEq, Eq)]
pub struct Def {
    pub word: Option<String>,
    pub title: Option<String>,
    pub type_label: Option<String>,
    pub dict_name: Option<String>,
    pub cn: Option<String>,
    pub en: Option<String>,
    pub info: Option<String>,
    pub t1: Option<String>,
    pub t2: Option<String>,
    pub pronunciation: Option<Vec<String>>,
    pub etymology: Option<Vec<String>>,
    pub examples: Option<Vec<Example>>,
    pub definitions: Option<Vec<Def>>,
}

/// Model of [`Def`]. An absent child list and an empty one read the same
/// way to every consumer here, so the model collapses `definitions` to a
/// plain sequence.
#[verifier::ext_equal]
pub struct DefModel {
    pub word: Option<Seq<char>>,
    pub title: Option<Seq<char>>,
    pub type_label: Option<Seq<char>>,
    pub dict_name: Option<Seq<char>>,
    pub cn: Option<Seq<char>>,
    pub en: Option<Seq<char>>,
    pub info: Option<Seq<char>>,
    pub t1: Option<Seq<char>>,
    pub t2: Option<Seq<char>>,
    pub pronunciation: Option<Seq<Seq<char>>>,
    pub etymology: Option<Seq<Seq<char>>>,
    pub examples: Option<Seq<ExampleModel>>,
    pub definitions: Seq<DefModel>,
}

/// The model of one record; mutually recursive with [`def_seq_model`].
pub open spec fn def_model(d: Def) -> DefModel
    decreases d,
{
    DefModel {
        word: d.word.deep_view(),
        title: d.title.deep_view(),
        type_label: d.type_label.deep_view(),
        dict_name: d.dict_name.deep_view(),
        cn: d.cn.deep_view(),
        en: d.en.deep_view(),
        info: d.info.deep_view(),
        t1: d.t1.deep_view(),
        t2: d.t2.deep_view(),
        pronunciation: d.pronunciation.deep_view(),
        etymology: d.etymology.deep_view(),
        examples: d.examples.deep_view(),
        definitions: match d.definitions {
            Option::None => Seq::<DefModel>::empty(),
            Option::Some(v) => def_seq_model(v@),
        },
    }
}

/// The models of a sequence of records, elementwise.
pub open spec fn def_seq_model(s: Seq<Def>) -> Seq<DefModel>
    decreases s,
{
    if s.len() == 0 {
        Seq::<DefModel>::empty()
    } else {
        def_seq_model(s.drop_last()).push(def_model(s.last()))
    }
}

/// `def_seq_model` is the elementwise model.
pub proof fn lemma_def_seq_model(s: Seq<Def>)
    ensures
        def_seq_model(s).len() == s.len(),
        forall|i: int| 0 <= i < s.len() ==> def_seq_model(s)[i] == #[trigger] s[i].deep_view(),
    decreases s.len(),
{
    if s.len() > 0 {
        lemma_def_seq_model(s.drop_last());
        assert forall|i: int| 0 <= i < s.len() implies def_seq_model(s)[i] == #[trigger] s[
            i
        ].deep_view() by {
            if i < s.len() - 1 {
                assert(s.drop_last()[i] == s[i]);
            } else {
                assert(s.last() == s[i]);
            }
        }
    }
}

impl DeepView for Def {
    type V = DefModel;

    open spec fn deep_view(&self) -> DefModel {
        def_model(*self)
    }
}

impl Def {
    /// A record with every field absent.
    pub fn empty() -> (d: Def)
        ensures
            d.deep_view() == (DefModel {
                word: None::<Seq<char>>,
                title: None::<Seq<char>>,
                type_label: None::<Seq<char>>,
                dict_name: None::<Seq<char>>,
                cn: None::<Seq<char>>,
                en: None::<Seq<char>>,
                info: None::<Seq<char>>,
                t1: None::<Seq<char>>,
                t2: None::<Seq<char>>,
                pronunciation: None::<Seq<Seq<char>>>,
                etymology: None::<Seq<Seq<char>>>,
                examples: None::<Seq<ExampleModel>>,
                definitions: Seq::<DefModel>::empty(),
            }),
    {
        Def {
            word: None,
            title: None,
            type_label: None,
            dict_name: None,
            cn: None,
            en: None,
            info: None,
            t1: None,
            t2: None,
            pronunciation: None,
            etymology: None,
            examples: None,
            definitions: None,
        }
    }
}

/// One per-word group: the matched headword and, per contributing
/// dictionary source, a container record holding that source's definition
/// trees. The dictionary engine hands back one of these per matched word,
/// and `collect_defs` builds the same shape from a flat list of records.
#[derive(Debug, PartialEq, Eq)]
pub struct WrapperDef {
    pub word: String,
    pub items: Vec<(String, Def)>,
}

/// Model of [`WrapperDef`].
#[verifier::ext_equal]
pub struct WrapperModel {
    pub word: Seq<char>,
    pub items: Seq<(Seq<char>, DefModel)>,
}

impl DeepView for WrapperDef {
    type V = WrapperModel;

    open spec fn deep_view(&self) -> WrapperModel {
        WrapperModel { word: self.word@, items: self.items.deep_view() }
    }
}

/// An alternative name for the per-word group type, kept for callers
/// that know it by this one.
pub type DefItemWrapped = WrapperDef;

} // verus!

