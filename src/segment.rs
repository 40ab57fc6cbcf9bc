use vstd::prelude::*;
use crate::config::{texts, ConfigSnapshot};
use crate::text::str_equal;

verus! {

/// Longest token, in characters, that is kept as a keyword.
pub const MAX_WORD_LENGTH: usize = 20;

/// The text of `s` without its leading and trailing whitespace.
pub uninterp spec fn trimmed(s: Seq<char>) -> Seq<char>;

/// The lowercase form of `s`.
pub uninterp spec fn lowered(s: Seq<char>) -> Seq<char>;

/// The words the built-in dictionary's segmenter cuts a text into, in order.
pub uninterp spec fn segmented(s: Seq<char>) -> Seq<Seq<char>>;

#[verifier::external_type_specification]
#[verifier::external_body]
pub struct ExJieba(jieba_rs::Jieba);

/// Relies on `str::trim`: strips leading and trailing whitespace, a function of the
/// text alone; what it returns has no outer whitespace left to strip.
#[verifier::external_body]
fn trim_text<'a>(s: &'a str) -> (r: &'a str)
    ensures
        r@ == trimmed(s@),
        trimmed(r@) == r@,
{
    s.trim()
}

/// Relies on `str::to_lowercase`: the lowercase mapping depends on the characters alone.
#[verifier::external_body]
fn lowercase_text(s: &str) -> (r: String)
    ensures
        r@ == lowered(s@),
{
    s.to_lowercase()
}

/// Relies on `jieba_rs::Jieba::new`: a segmenter loaded with the built-in dictionary.
#[verifier::external_body]
fn new_jieba() -> (r: jieba_rs::Jieba) {
    jieba_rs::Jieba::new()
}

/// Relies on `jieba_rs::Jieba::cut` with HMM enabled, on a segmenter built by
/// `Jieba::new` (the only way a `Segmenter` is made): with the built-in dictionary,
/// fixed-seed hash maps and a deterministic HMM, the words depend on the text alone.
#[verifier::external_body]
fn cut_words(seg: &Segmenter, text: &str) -> (r: Vec<String>)
    ensures
        texts(r@) == segmented(text@),
{
    seg.jieba.cut(text, true).into_iter().map(|t| t.word.to_string()).collect()
}

/// Whether a trimmed token survives the filters: its length lies in
/// `[min_len, MAX_WORD_LENGTH]`, it has no outer whitespace, and neither it nor
/// its lowercase form is a stop word.
pub open spec fn keeps(word: Seq<char>, min_len: nat, stops: Seq<Seq<char>>) -> bool {
    &&& min_len <= word.len()
    &&& word.len() <= MAX_WORD_LENGTH
    &&& trimmed(word) == word
    &&& !stops.contains(word)
    &&& !stops.contains(lowered(word))
}

/// The keywords chosen from a list of candidate tokens: each candidate is
/// trimmed, filtered, and kept only at its first occurrence.
pub open spec fn select(cands: Seq<Seq<char>>, min_len: nat, stops: Seq<Seq<char>>) -> Seq<Seq<char>>
    decreases cands.len(),
{
    if cands.len() == 0 {
        Seq::empty()
    } else {
        let prev = select(cands.drop_last(), min_len, stops);
        let w = trimmed(cands.last());
        if keeps(w, min_len, stops) && !prev.contains(w) {
            prev.push(w)
        } else {
            prev
        }
    }
}

/// The words of a keyword list.
pub open spec fn keyword_words(ks: Seq<(String, i32)>) -> Seq<Seq<char>> {
    ks.map_values(|k: (String, i32)| k.0@)
}

/// Every entry carries its word's length in characters.
pub open spec fn lengths_match(ks: Seq<(String, i32)>) -> bool {
    forall|i: int| 0 <= i < ks.len() ==> #[trigger] ks[i].1 as int == ks[i].0@.len()
}

/// Every selected keyword passes the filters, and none occurs twice.
pub proof fn lemma_select_filtered_distinct(cands: Seq<Seq<char>>, min_len: nat, stops: Seq<Seq<char>>)
    ensures
        forall|i: int| 0 <= i < select(cands, min_len, stops).len()
            ==> keeps(#[trigger] select(cands, min_len, stops)[i], min_len, stops),
        select(cands, min_len, stops).no_duplicates(),
    decreases cands.len(),
{
    if cands.len() > 0 {
        lemma_select_filtered_distinct(cands.drop_last(), min_len, stops);
    }
}

/// Segmentation law: no keyword is shorter than the minimum length, longer than
/// the cap, a stop word as written or in lowercase, or padded with whitespace,
/// and no keyword appears twice in one message.
pub proof fn segmentation_yields_filtered_distinct_keywords(cands: Seq<Seq<char>>, min_len: nat, stops: Seq<Seq<char>>)
    ensures
        forall|i: int| 0 <= i < select(cands, min_len, stops).len() ==> {
            let w = #[trigger] select(cands, min_len, stops)[i];
            &&& min_len <= w.len()
            &&& w.len() <= MAX_WORD_LENGTH
            &&& trimmed(w) == w
            &&& !stops.contains(w)
            &&& !stops.contains(lowered(w))
        },
        forall|i: int, j: int|
            0 <= i < j < select(cands, min_len, stops).len()
                ==> select(cands, min_len, stops)[i] != select(cands, min_len, stops)[j],
{
    lemma_select_filtered_distinct(cands, min_len, stops);
}

fn listed(words: &Vec<(String, i32)>, word: &str) -> (r: bool)
    ensures
        r == keyword_words(words@).contains(word@),
{
    let mut i: usize = 0;
    while i < words.len()
        invariant
            i <= words@.len(),
            forall|j: int| 0 <= j < i ==> words@[j].0@ != word@,
        decreases words@.len() - i,
    {
        if str_equal(words[i].0.as_str(), word) {
            assert(keyword_words(words@)[i as int] == word@);
            return true;
        }
        i = i + 1;
    }
    assert forall|j: int| 0 <= j < keyword_words(words@).len() implies keyword_words(words@)[j] != word@ by {
        assert(words@[j].0@ != word@);
    }
    false
}

fn stop_listed(stop_words: &Vec<String>, word: &str) -> (r: bool)
    ensures
        r == texts(stop_words@).contains(word@),
{
    let mut i: usize = 0;
    while i < stop_words.len()
        invariant
            i <= stop_words@.len(),
            forall|j: int| 0 <= j < i ==> stop_words@[j]@ != word@,
        decreases stop_words@.len() - i,
    {
        if str_equal(stop_words[i].as_str(), word) {
            assert(texts(stop_words@)[i as int] == word@);
            return true;
        }
        i = i + 1;
    }
    assert forall|j: int| 0 <= j < texts(stop_words@).len() implies texts(stop_words@)[j] != word@ by {
        assert(stop_words@[j]@ != word@);
    }
    false
}

/// Picks the keywords of a message from its candidate tokens: trims each one,
/// keeps it when its length lies in `[min_len, MAX_WORD_LENGTH]` and neither it
/// nor its lowercase form is a stop word, and drops repeats. Each keyword comes with its length.
pub fn select_keywords(words: &Vec<String>, min_len: usize, stop_words: &Vec<String>) -> (r: Vec<(String, i32)>)
    ensures
        keyword_words(r@) == select(texts(words@), min_len as nat, texts(stop_words@)),
        lengths_match(r@),
{
    let ghost stops = texts(stop_words@);
    let mut out: Vec<(String, i32)> = Vec::new();
    let mut i: usize = 0;
    while i < words.len()
        invariant
            i <= words@.len(),
            stops == texts(stop_words@),
            keyword_words(out@) == select(texts(words@.subrange(0, i as int)), min_len as nat, stops),
            lengths_match(out@),
        decreases words@.len() - i,
    {
        let ghost prev = out@;
        let s = trim_text(words[i].as_str());
        let len = s.unicode_len();
        let low = lowercase_text(s);
        let keep = min_len <= len && len <= MAX_WORD_LENGTH && !stop_listed(stop_words, s)
            && !stop_listed(stop_words, low.as_str()) && !listed(&out, s);
        proof {
            let c = texts(words@.subrange(0, i + 1));
            assert(c.drop_last() =~= texts(words@.subrange(0, i as int)));
            assert(c.last() == words@[i as int]@);
        }
        if keep {
            let word = String::from_str(s);
            out.push((word, len as i32));
            proof {
                assert(keyword_words(out@) =~= keyword_words(prev).push(s@));
            }
        }
        i = i + 1;
    }
    assert(words@.subrange(0, words@.len() as int) =~= words@);
    out
}

/// Splits message text into candidate words and picks its keywords.
pub struct Segmenter {
    jieba: jieba_rs::Jieba,
}

impl Segmenter {
    /// A segmenter with the built-in dictionary.
    pub fn new() -> (r: Self) {
        Segmenter { jieba: new_jieba() }
    }

    /// The candidate words of a text, in order.
    pub fn cut(&self, text: &str) -> (r: Vec<String>)
        ensures
            texts(r@) == segmented(text@),
    {
        cut_words(self, text)
    }

    /// The keywords of a message under the tokenizer settings of a snapshot.
    /// With the tokenizer off, or a text that is empty after trimming, there are
    /// none; otherwise they are the selection from the segmenter's candidates.
    pub fn keywords(&self, text: &str, snapshot: &ConfigSnapshot) -> (r: Vec<(String, i32)>)
        ensures
            (!snapshot.tokenizer_enabled || trimmed(text@).len() == 0) ==> r@.len() == 0,
            snapshot.tokenizer_enabled && trimmed(text@).len() > 0 ==> keyword_words(r@) == select(
                segmented(text@),
                snapshot.min_word_length as nat,
                texts(snapshot.stop_words@),
            ),
            lengths_match(r@),
    {
        if !snapshot.tokenizer_enabled || trim_text(text).unicode_len() == 0 {
            return Vec::new();
        }
        let words = self.cut(text);
        select_keywords(&words, snapshot.min_word_length, &snapshot.stop_words)
    }
}

} // verus!
