//! Flesch Reading Ease scores for text in six languages.
//!
//! The text is reduced to three counts (sentence terminators, word runs and
//! vowel runs), and the language's linear formula turns them into a score in
//! `[0, 100]`. Scores are exact: they are given in fixed point, in units of
//! `1 / SCORE_SCALE`, rounded down.
pub mod counting;
pub mod language;
pub mod score;
pub mod scorer;

pub use language::Language;
pub use scorer::FleschReadingEase;
pub use score::{score_from_counts, MAX_SCALED_SCORE, SCORE_SCALE};
