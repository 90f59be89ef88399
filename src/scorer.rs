use vstd::prelude::*;
use crate::counting::{
    count_terminators, count_vowel_runs, count_word_runs, is_ascii_non_word, is_terminator,
    lemma_no_terminators, terminator_count, vowel_run_count, word_run_count,
};
use crate::language::Language;
use crate::score::{score_from_counts, scaled_score, MAX_SCALED_SCORE};

verus! {

/// The score of `text` in `language`, in units of `1 / SCORE_SCALE`.
pub open spec fn reading_ease(language: Language, text: Seq<char>) -> int {
    scaled_score(language, terminator_count(text), word_run_count(text), vowel_run_count(text))
}

/// Scoring is deterministic: the score depends on the language and the text
/// alone, so two scorers for one language give one text the same score.
pub proof fn lemma_score_is_deterministic(
    a: FleschReadingEase,
    b: FleschReadingEase,
    text: Seq<char>,
)
    requires
        a.language() == b.language(),
    ensures
        reading_ease(a.language(), text) == reading_ease(b.language(), text),
{
}

/// Scores text by the Flesch Reading Ease formula of one language.
pub struct FleschReadingEase {
    language: Language,
}

impl FleschReadingEase {
    /// The language whose coefficients this scorer uses.
    pub closed spec fn language(&self) -> Language {
        self.language
    }

    /// A scorer for `language`.
    pub fn new(language: Language) -> (r: Self)
        ensures
            r.language() == language,
    {
        FleschReadingEase { language }
    }

    /// The number of sentences in `text`: one per `.`, `!` or `?`.
    pub fn count_sentences(&self, text: &str) -> (r: usize)
        ensures
            r == terminator_count(text@),
    {
        count_terminators(text)
    }

    /// The number of words in `text`: maximal runs of word characters.
    pub fn count_words(&self, text: &str) -> (r: usize)
        ensures
            r == word_run_count(text@),
            (forall|i: int| 0 <= i < text@.len() ==> is_ascii_non_word(#[trigger] text@[i])) ==> r
                == 0,
    {
        count_word_runs(text)
    }

    /// The number of syllables in `text`: maximal runs of ASCII vowels.
    pub fn count_syllables(&self, text: &str) -> (r: usize)
        ensures
            r == vowel_run_count(text@),
    {
        count_vowel_runs(text)
    }

    /// The Flesch Reading Ease score of `text`, in units of
    /// `1 / SCORE_SCALE`, rounded down and clamped to `[0, 100]`. A text with
    /// no sentence terminator or no word scores `0`.
    pub fn calculate(&self, text: &str) -> (r: u64)
        ensures
            r == reading_ease(self.language(), text@),
            r <= MAX_SCALED_SCORE,
            text@.len() == 0 ==> r == 0,
            (forall|i: int| 0 <= i < text@.len() ==> !is_terminator(#[trigger] text@[i])) ==> r
                == 0,
            (forall|i: int| 0 <= i < text@.len() ==> is_ascii_non_word(#[trigger] text@[i])) ==> r
                == 0,
    {
        let sentences = self.count_sentences(text);
        let words = self.count_words(text);
        let syllables = self.count_syllables(text);
        proof {
            if forall|i: int| 0 <= i < text@.len() ==> !is_terminator(#[trigger] text@[i]) {
                lemma_no_terminators(text@);
            }
        }
        score_from_counts(self.language, sentences, words, syllables)
    }
}

} // verus!
