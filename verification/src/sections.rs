//! Display-ready section tree: the bounded two-level structure that the
//! flattener produces from nested definition records, together with its
//! mathematical model and verified structural equality (the flattener's
//! dedup rule compares whole items).

use vstd::prelude::*;

verus! {

/// Word-class label derived from a type string by keyword matching; never
/// authoritative.
#[derive(Clone, Copy, Debug, PartialEq, Eq, Structural)]
pub enum WordTypeId {
    Noun,
    Verb,
    Adv,
    Other,
    Adj,
}

/// A classified word type: the derived label plus the raw lower-cased text
/// it was derived from.
#[derive(Clone, Debug, PartialEq, Eq)]
pub struct WordType {
    pub label: WordTypeId,
    pub text: String,
}

/// Model of [`WordType`]: the text as a character sequence.
#[verifier::ext_equal]
pub struct WordTypeModel {
    pub label: WordTypeId,
    pub text: Seq<char>,
}

/// A bilingual text pair, either side optional.
#[derive(Clone, Debug, PartialEq, Eq)]
pub struct BiText {
    pub en: Option<String>,
    pub cn: Option<String>,
}

/// Model of [`BiText`].
#[verifier::ext_equal]
pub struct BiTextModel {
    pub en: Option<Seq<char>>,
    pub cn: Option<Seq<char>>,
}

/// One entry of an example: either plain text or a bilingual pair.
#[derive(Clone, Debug, PartialEq, Eq)]
pub enum MaybeString {
    Str(String),
    Obj(BiText),
}

/// Model of [`MaybeString`].
#[verifier::ext_equal]
pub enum MaybeStringModel {
    Str(Seq<char>),
    Obj(BiTextModel),
}

/// One example sentence group from a definition record.
#[derive(Clone, Debug, PartialEq, Eq)]
pub struct Example {
    pub texts: Vec<MaybeString>,
}

/// Model of [`Example`].
#[verifier::ext_equal]
pub struct ExampleModel {
    pub texts: Seq<MaybeStringModel>,
}

/// One content item of a section: a tagged variant wrapping already
/// localized text, equality-comparable for dedup.
#[derive(Clone, Debug, PartialEq, Eq)]
pub enum SectionT {
    Etymology { lines: Vec<String> },
    Example { text: Example },
    Tip { lines: Vec<String> },
    Explain { en: Option<String>, cn: Option<String> },
    Related { lines: Vec<String> },
    Info { text: String },
}

/// Model of [`SectionT`].
#[verifier::ext_equal]
pub enum SectionTModel {
    Etymology { lines: Seq<Seq<char>> },
    Example { text: ExampleModel },
    Tip { lines: Seq<Seq<char>> },
    Explain { en: Option<Seq<char>>, cn: Option<Seq<char>> },
    Related { lines: Seq<Seq<char>> },
    Info { text: Seq<char> },
}

/// One section per contributing dictionary source: an optional sub-label,
/// an optional pronunciation set, an optional classified word type, and an
/// ordered, deduplicated list of content items.
#[derive(Clone, Debug, PartialEq, Eq)]
pub struct SectionsR {
    pub title_l2: Option<String>,
    pub ipa: Option<Vec<String>>,
    pub kind: Option<WordType>,
    pub content: Vec<SectionT>,
}

/// Model of [`SectionsR`].
#[verifier::ext_equal]
pub struct SectionsRModel {
    pub title_l2: Option<Seq<char>>,
    pub ipa: Option<Seq<Seq<char>>>,
    pub kind: Option<WordTypeModel>,
    pub content: Seq<SectionTModel>,
}

/// One top-level section per matched headword: the headword label and its
/// per-source sections.
#[derive(Clone, Debug, PartialEq, Eq)]
pub struct SectionTop {
    pub title_l1: String,
    pub sections: Vec<SectionsR>,
}

/// Model of [`SectionTop`].
#[verifier::ext_equal]
pub struct SectionTopModel {
    pub title_l1: Seq<char>,
    pub sections: Seq<SectionsRModel>,
}

impl DeepView for WordType {
    type V = WordTypeModel;

    open spec fn deep_view(&self) -> WordTypeModel {
        WordTypeModel { label: self.label, text: self.text@ }
    }
}

impl DeepView for BiText {
    type V = BiTextModel;

    open spec fn deep_view(&self) -> BiTextModel {
        BiTextModel { en: self.en.deep_view(), cn: self.cn.deep_view() }
    }
}

impl DeepView for MaybeString {
    type V = MaybeStringModel;

    open spec fn deep_view(&self) -> MaybeStringModel {
        match self {
            MaybeString::Str(s) => MaybeStringModel::Str(s@),
            MaybeString::Obj(b) => MaybeStringModel::Obj(b.deep_view()),
        }
    }
}

impl DeepView for Example {
    type V = ExampleModel;

    open spec fn deep_view(&self) -> ExampleModel {
        ExampleModel { texts: self.texts.deep_view() }
    }
}

impl DeepView for SectionT {
    type V = SectionTModel;

    open spec fn deep_view(&self) -> SectionTModel {
        match self {
            SectionT::Etymology { lines } => SectionTModel::Etymology {
                lines: lines.deep_view(),
            },
            SectionT::Example { text } => SectionTModel::Example { text: text.deep_view() },
            SectionT::Tip { lines } => SectionTModel::Tip { lines: lines.deep_view() },
            SectionT::Explain { en, cn } => SectionTModel::Explain {
                en: en.deep_view(),
                cn: cn.deep_view(),
            },
            SectionT::Related { lines } => SectionTModel::Related { lines: lines.deep_view() },
            SectionT::Info { text } => SectionTModel::Info { text: text@ },
        }
    }
}

impl DeepView for SectionsR {
    type V = SectionsRModel;

    open spec fn deep_view(&self) -> SectionsRModel {
        SectionsRModel {
            title_l2: self.title_l2.deep_view(),
            ipa: self.ipa.deep_view(),
            kind: self.kind.deep_view(),
            content: self.content.deep_view(),
        }
    }
}

impl DeepView for SectionTop {
    type V = SectionTopModel;

    open spec fn deep_view(&self) -> SectionTopModel {
        SectionTopModel { title_l1: self.title_l1@, sections: self.sections.deep_view() }
    }
}

/// Structural equality on the mathematical model: the flattener's dedup
/// rule compares whole items, so every content type carries a verified
/// equality test whose answer is exactly equality of models.
pub trait ModelEq: DeepView + Sized {
    fn model_eq(&self, other: &Self) -> (r: bool)
        ensures
            r == (self.deep_view() == other.deep_view()),
    ;
}

impl ModelEq for String {
    fn model_eq(&self, other: &Self) -> (r: bool)
        ensures
            r == (self.deep_view() == other.deep_view()),
    {
        *self == *other
    }
}

impl<T: ModelEq> ModelEq for Option<T> {
    fn model_eq(&self, other: &Self) -> (r: bool)
        ensures
            r == (self.deep_view() == other.deep_view()),
    {
        match (self, other) {
            (None, None) => true,
            (Some(a), Some(b)) => a.model_eq(b),
            _ => false,
        }
    }
}

impl<T: ModelEq> ModelEq for Vec<T> {
    fn model_eq(&self, other: &Self) -> (r: bool)
        ensures
            r == (self.deep_view() == other.deep_view()),
    {
        if self.len() != other.len() {
            proof {
                assert(self.deep_view().len() == self@.len());
                assert(other.deep_view().len() == other@.len());
            }
            return false;
        }
        let n = self.len();
        let mut i: usize = 0;
        while i < n
            invariant
                n == self@.len(),
                n == other@.len(),
                i <= n,
                forall|j: int| 0 <= j < i ==> self.deep_view()[j] == other.deep_view()[j],
            decreases n - i,
        {
            if !self[i].model_eq(&other[i]) {
                proof {
                    assert(self.deep_view()[i as int] == self@[i as int].deep_view());
                    assert(other.deep_view()[i as int] == other@[i as int].deep_view());
                }
                return false;
            }
            i += 1;
        }
        proof {
            assert(self.deep_view() =~= other.deep_view());
        }
        true
    }
}

impl ModelEq for WordType {
    fn model_eq(&self, other: &Self) -> (r: bool)
        ensures
            r == (self.deep_view() == other.deep_view()),
    {
        self.label == other.label && self.text.model_eq(&other.text)
    }
}

impl ModelEq for BiText {
    fn model_eq(&self, other: &Self) -> (r: bool)
        ensures
            r == (self.deep_view() == other.deep_view()),
    {
        self.en.model_eq(&other.en) && self.cn.model_eq(&other.cn)
    }
}

impl ModelEq for MaybeString {
    fn model_eq(&self, other: &Self) -> (r: bool)
        ensures
            r == (self.deep_view() == other.deep_view()),
    {
        match (self, other) {
            (MaybeString::Str(a), MaybeString::Str(b)) => a.model_eq(b),
            (MaybeString::Obj(a), MaybeString::Obj(b)) => a.model_eq(b),
            _ => false,
        }
    }
}

impl ModelEq for Example {
    fn model_eq(&self, other: &Self) -> (r: bool)
        ensures
            r == (self.deep_view() == other.deep_view()),
    {
        self.texts.model_eq(&other.texts)
    }
}

impl ModelEq for SectionT {
    fn model_eq(&self, other: &Self) -> (r: bool)
        ensures
            r == (self.deep_view() == other.deep_view()),
    {
        match (self, other) {
            (SectionT::Etymology { lines: a }, SectionT::Etymology { lines: b }) => a.model_eq(b),
            (SectionT::Example { text: a }, SectionT::Example { text: b }) => a.model_eq(b),
            (SectionT::Tip { lines: a }, SectionT::Tip { lines: b }) => a.model_eq(b),
            (
                SectionT::Explain { en: ae, cn: ac },
                SectionT::Explain { en: be, cn: bc },
            ) => ae.model_eq(be) && ac.model_eq(bc),
            (SectionT::Related { lines: a }, SectionT::Related { lines: b }) => a.model_eq(b),
            (SectionT::Info { text: a }, SectionT::Info { text: b }) => a.model_eq(b),
            _ => false,
        }
    }
}

impl ModelEq for SectionsR {
    fn model_eq(&self, other: &Self) -> (r: bool)
        ensures
            r == (self.deep_view() == other.deep_view()),
    {
        self.title_l2.model_eq(&other.title_l2) && self.ipa.model_eq(&other.ipa)
            && self.kind.model_eq(&other.kind) && self.content.model_eq(&other.content)
    }
}

impl ModelEq for SectionTop {
    fn model_eq(&self, other: &Self) -> (r: bool)
        ensures
            r == (self.deep_view() == other.deep_view()),
    {
        self.title_l1.model_eq(&other.title_l1) && self.sections.model_eq(&other.sections)
    }
}

/// An owned copy of an optional string, equal on the model.
pub fn dup_opt_string(s: &Option<String>) -> (r: Option<String>)
    ensures
        r.deep_view() == s.deep_view(),
{
    match s {
        None => None,
        Some(x) => Some(x.clone()),
    }
}

impl MaybeString {
    /// An owned copy, equal on the model.
    pub fn duplicate(&self) -> (r: MaybeString)
        ensures
            r.deep_view() == self.deep_view(),
    {
        match self {
            MaybeString::Str(s) => MaybeString::Str(s.clone()),
            MaybeString::Obj(b) => MaybeString::Obj(
                BiText { en: dup_opt_string(&b.en), cn: dup_opt_string(&b.cn) },
            ),
        }
    }
}

impl Example {
    /// An owned copy, equal on the model.
    pub fn duplicate(&self) -> (r: Example)
        ensures
            r.deep_view() == self.deep_view(),
    {
        let mut texts: Vec<MaybeString> = Vec::new();
        let n = self.texts.len();
        let mut i: usize = 0;
        while i < n
            invariant
                n == self.texts@.len(),
                i <= n,
                texts@.len() == i,
                texts.deep_view() =~= self.texts.deep_view().subrange(0, i as int),
            decreases n - i,
        {
            let item = self.texts[i].duplicate();
            proof {
                assert(item.deep_view() == self.texts@[i as int].deep_view());
            }
            texts.push(item);
            proof {
                let lhs = texts.deep_view();
                let rhs = self.texts.deep_view().subrange(0, i + 1);
                assert(texts.deep_view().len() == texts@.len());
                assert(self.texts.deep_view().len() == self.texts@.len());
                assert(texts@.len() == i + 1);
                assert(rhs.len() == i + 1);
                assert(lhs.len() == rhs.len());
                assert forall|k: int| 0 <= k < lhs.len() implies lhs[k] == rhs[k] by {
                    assert(rhs[k] == self.texts.deep_view()[k]);
                    assert(self.texts.deep_view()[k] == self.texts@[k].deep_view());
                    assert(lhs[k] == texts@[k].deep_view());
                }
                assert(lhs =~= rhs);
            }
            i += 1;
        }
        proof {
            assert(self.texts.deep_view().subrange(0, n as int) =~= self.texts.deep_view());
        }
        Example { texts }
    }
}

impl SectionsR {
    /// An empty per-source section, before any definition node contributes.
    pub fn new() -> (s: SectionsR)
        ensures
            s.deep_view() == (SectionsRModel {
                title_l2: None::<Seq<char>>,
                ipa: None::<Seq<Seq<char>>>,
                kind: None::<WordTypeModel>,
                content: Seq::<SectionTModel>::empty(),
            }),
    {
        let s = SectionsR { title_l2: None, ipa: None, kind: None, content: Vec::new() };
        proof {
            assert(s.content.deep_view() =~= Seq::<SectionTModel>::empty());
        }
        s
    }
}

} // verus!
