use vstd::prelude::*;

verus! {

/// A character that ends a sentence.
pub open spec fn is_terminator(c: char) -> bool {
    c == '.' || c == '!' || c == '?'
}

/// The number of sentence terminators in `s`; each one counts, also when
/// several stand together.
pub open spec fn terminator_count(s: Seq<char>) -> nat
    decreases s.len(),
{
    if s.len() == 0 {
        0
    } else {
        terminator_count(s.drop_last()) + if is_terminator(s.last()) {
            1nat
        } else {
            0nat
        }
    }
}

/// An ASCII vowel letter, `y` included, in either case.
pub open spec fn is_vowel(c: char) -> bool {
    c == 'a' || c == 'e' || c == 'i' || c == 'o' || c == 'u' || c == 'y' || c == 'A' || c == 'E'
        || c == 'I' || c == 'O' || c == 'U' || c == 'Y'
}

/// Position `i` of `s` opens a maximal run of vowels.
pub open spec fn starts_vowel_run(s: Seq<char>, i: int) -> bool {
    is_vowel(s[i]) && (i == 0 || !is_vowel(s[i - 1]))
}

/// The number of maximal runs of vowels in `s`: the syllable estimate.
pub open spec fn vowel_run_count(s: Seq<char>) -> nat
    decreases s.len(),
{
    if s.len() == 0 {
        0
    } else {
        vowel_run_count(s.drop_last()) + if starts_vowel_run(s, s.len() - 1) {
            1nat
        } else {
            0nat
        }
    }
}

/// An ASCII character that is no word character: neither a letter, a digit
/// nor `_`.
pub open spec fn is_ascii_non_word(c: char) -> bool {
    (c as u32) < 128 && !('0' <= c <= '9' || 'a' <= c <= 'z' || 'A' <= c <= 'Z' || c == '_')
}

/// The number of maximal runs of Unicode word characters in `s`, as the
/// regular expression `\w+` finds them.
pub uninterp spec fn word_run_count(s: Seq<char>) -> nat;

/// The pattern of a sentence terminator.
pub open spec fn terminator_pattern() -> Seq<char> {
    seq!['[', '.', '!', '?', ']']
}

/// The pattern of a run of vowels.
pub open spec fn vowel_run_pattern() -> Seq<char> {
    seq!['[', 'a', 'e', 'i', 'o', 'u', 'y', 'A', 'E', 'I', 'O', 'U', 'Y', ']', '+']
}

/// The pattern of a run of word characters.
pub open spec fn word_run_pattern() -> Seq<char> {
    seq!['\\', 'w', '+']
}

/// Relies on `regex::Regex::new` and `Regex::find_iter`: each of the three
/// patterns compiles, and `find_iter` yields the leftmost-first,
/// non-overlapping matches. A class of single characters thus matches once
/// per character of the class; a class followed by `+` matches once per
/// maximal run of its characters. `\w` is Unicode-aware, and among ASCII
/// characters it holds `[0-9A-Za-z_]` and nothing else.
#[verifier::external_body]
fn count_matches(pattern: &str, text: &str) -> (r: usize)
    requires
        pattern@ == terminator_pattern() || pattern@ == vowel_run_pattern() || pattern@
            == word_run_pattern(),
    ensures
        pattern@ == terminator_pattern() ==> r == terminator_count(text@),
        pattern@ == vowel_run_pattern() ==> r == vowel_run_count(text@),
        pattern@ == word_run_pattern() ==> r == word_run_count(text@),
        pattern@ == word_run_pattern() && (forall|i: int|
            0 <= i < text@.len() ==> is_ascii_non_word(#[trigger] text@[i])) ==> r == 0,
{
    regex::Regex::new(pattern).unwrap().find_iter(text).count()
}

/// The number of sentence terminators (`.`, `!`, `?`) in `text`.
pub(crate) fn count_terminators(text: &str) -> (r: usize)
    ensures
        r == terminator_count(text@),
{
    let pattern = "[.!?]";
    proof {
        reveal_strlit("[.!?]");
        assert(pattern@ =~= terminator_pattern());
    }
    count_matches(pattern, text)
}

/// The number of maximal runs of ASCII vowels in `text`.
pub(crate) fn count_vowel_runs(text: &str) -> (r: usize)
    ensures
        r == vowel_run_count(text@),
{
    let pattern = "[aeiouyAEIOUY]+";
    proof {
        reveal_strlit("[aeiouyAEIOUY]+");
        assert(pattern@ =~= vowel_run_pattern());
    }
    count_matches(pattern, text)
}

/// The number of maximal runs of word characters in `text`.
pub(crate) fn count_word_runs(text: &str) -> (r: usize)
    ensures
        r == word_run_count(text@),
        (forall|i: int| 0 <= i < text@.len() ==> is_ascii_non_word(#[trigger] text@[i])) ==> r
            == 0,
{
    let pattern = "\\w+";
    proof {
        reveal_strlit("\\w+");
        assert(pattern@ =~= word_run_pattern());
    }
    count_matches(pattern, text)
}

/// A text without terminators has none to count.
pub(crate) proof fn lemma_no_terminators(s: Seq<char>)
    requires
        forall|i: int| 0 <= i < s.len() ==> !is_terminator(#[trigger] s[i]),
    ensures
        terminator_count(s) == 0,
    decreases s.len(),
{
    if s.len() > 0 {
        assert(s.drop_last().len() == s.len() - 1);
        assert forall|i: int| 0 <= i < s.drop_last().len() implies !is_terminator(
            #[trigger] s.drop_last()[i],
        ) by {
            assert(s.drop_last()[i] == s[i]);
        }
        lemma_no_terminators(s.drop_last());
    }
}

} // verus!
