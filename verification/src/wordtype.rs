//! Word-type classification: a definition node's free-form type label is
//! lower-cased and classified by substring matching against a fixed keyword
//! table (English and Chinese abbreviations), in the priority order
//! Verb, Noun, Adj, Adv — the first class with a matching keyword wins.

use crate::sections::WordTypeId;
use vstd::prelude::*;

verus! {

/// `p` occurs in `s` as a contiguous subsequence.
pub open spec fn contains_sub(s: Seq<char>, p: Seq<char>) -> bool {
    exists|i: int|
        0 <= i <= s.len() - p.len() && #[trigger] s.subrange(i, i + p.len()) == p
}

/// The lower-cased label names a verb.
pub open spec fn is_verb_label(s: Seq<char>) -> bool {
    contains_sub(s, "verb"@) || contains_sub(s, "\u{52a8}\u{8bcd}"@) || contains_sub(s, "v."@)
        || contains_sub(s, "vt."@) || contains_sub(s, "vi."@)
}

/// The lower-cased label names a noun.
pub open spec fn is_noun_label(s: Seq<char>) -> bool {
    contains_sub(s, "noun"@) || contains_sub(s, "n."@) || contains_sub(s, "\u{540d}\u{8bcd}"@)
}

/// The lower-cased label names an adjective.
pub open spec fn is_adj_label(s: Seq<char>) -> bool {
    contains_sub(s, "adj"@) || contains_sub(s, "\u{5f62}\u{5bb9}\u{8bcd}"@)
}

/// The lower-cased label names an adverb.
pub open spec fn is_adv_label(s: Seq<char>) -> bool {
    contains_sub(s, "adv"@) || contains_sub(s, "\u{526f}\u{8bcd}"@)
}

/// Classification of a lower-cased type label: the first matching class in
/// the priority order Verb, Noun, Adj, Adv; anything else is Other.
pub open spec fn classify_label(s: Seq<char>) -> WordTypeId {
    if is_verb_label(s) {
        WordTypeId::Verb
    } else if is_noun_label(s) {
        WordTypeId::Noun
    } else if is_adj_label(s) {
        WordTypeId::Adj
    } else if is_adv_label(s) {
        WordTypeId::Adv
    } else {
        WordTypeId::Other
    }
}

/// The characters of `needle` stand at position `i` of `hay`.
fn match_at(hay: &str, needle: &str, i: usize, hay_len: usize, needle_len: usize) -> (r: bool)
    requires
        hay_len == hay@.len(),
        needle_len == needle@.len(),
        i + needle_len <= hay_len,
    ensures
        r == (hay@.subrange(i as int, i + needle@.len()) == needle@),
{
    let mut j: usize = 0;
    while j < needle_len
        invariant
            hay_len == hay@.len(),
            needle_len == needle@.len(),
            i + needle_len <= hay_len,
            j <= needle_len,
            forall|l: int| 0 <= l < j ==> hay@[i + l] == needle@[l],
        decreases needle_len - j,
    {
        if hay.get_char(i + j) != needle.get_char(j) {
            proof {
                assert(hay@.subrange(i as int, i + needle@.len())[j as int] == hay@[i + j]);
            }
            return false;
        }
        j += 1;
    }
    proof {
        assert(hay@.subrange(i as int, i + needle@.len()) =~= needle@);
    }
    true
}

/// Whether `needle` occurs anywhere in `hay`; quadratic scan over
/// characters, which is fine for short type labels.
pub fn str_contains(hay: &str, needle: &str) -> (r: bool)
    ensures
        r == contains_sub(hay@, needle@),
{
    let hay_len = hay.unicode_len();
    let needle_len = needle.unicode_len();
    if needle_len > hay_len {
        return false;
    }
    if needle_len == 0 {
        proof {
            assert(hay@.subrange(0, 0 + needle@.len() as int) =~= needle@);
            assert(contains_sub(hay@, needle@));
        }
        return true;
    }
    let mut i: usize = 0;
    while i <= hay_len - needle_len
        invariant
            hay_len == hay@.len(),
            needle_len == needle@.len(),
            needle_len <= hay_len,
            1 <= needle_len,
            i <= hay_len - needle_len + 1,
            forall|k: int|
                0 <= k < i ==> #[trigger] hay@.subrange(k, k + needle@.len()) != needle@,
        decreases hay_len - needle_len + 1 - i,
    {
        if match_at(hay, needle, i, hay_len, needle_len) {
            return true;
        }
        i += 1;
    }
    false
}

/// Classify an already lower-cased type label by the fixed keyword table.
pub fn classify(lower: &str) -> (label: WordTypeId)
    ensures
        label == classify_label(lower@),
{
    if str_contains(lower, "verb") || str_contains(lower, "\u{52a8}\u{8bcd}") || str_contains(
        lower,
        "v.",
    ) || str_contains(lower, "vt.") || str_contains(lower, "vi.") {
        WordTypeId::Verb
    } else if str_contains(lower, "noun") || str_contains(lower, "n.") || str_contains(
        lower,
        "\u{540d}\u{8bcd}",
    ) {
        WordTypeId::Noun
    } else if str_contains(lower, "adj") || str_contains(lower, "\u{5f62}\u{5bb9}\u{8bcd}") {
        WordTypeId::Adj
    } else if str_contains(lower, "adv") || str_contains(lower, "\u{526f}\u{8bcd}") {
        WordTypeId::Adv
    } else {
        WordTypeId::Other
    }
}

/// The character sequence that `str::to_lowercase` returns for a given
/// character sequence; a function of the characters alone.
pub uninterp spec fn lower_of(s: Seq<char>) -> Seq<char>;

/// Relies on str::to_lowercase: Unicode lowercasing, whose result depends
/// on the input characters alone; an empty string stays empty.
#[verifier::external_body]
pub(crate) fn lowercase(s: &str) -> (r: String)
    ensures
        r@ == lower_of(s@),
        s@.len() == 0 ==> r@.len() == 0,
{
    s.to_lowercase()
}

/// Classification priority: any label with a verb keyword classifies as
/// `Verb`, whatever other keywords (noun, adjective, adverb) it also
/// contains — Verb outranks Noun, Adj and Adv.
pub proof fn lemma_classify_verb_priority(s: Seq<char>)
    requires
        is_verb_label(s),
    ensures
        classify_label(s) == WordTypeId::Verb,
{
}

/// Noun outranks Adj and Adv: a label without verb keywords but with a
/// noun keyword classifies as `Noun`.
pub proof fn lemma_classify_noun_priority(s: Seq<char>)
    requires
        !is_verb_label(s),
        is_noun_label(s),
    ensures
        classify_label(s) == WordTypeId::Noun,
{
}

} // verus!
