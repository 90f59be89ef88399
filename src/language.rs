use vstd::prelude::*;

verus! {

/// The languages whose published coefficients the score can use.
#[derive(Clone, Copy, Debug, PartialEq, Eq, Structural)]
pub enum Language {
    English,
    French,
    German,
    Dutch,
    Polish,
    Bulgarian,
}

impl Language {
    /// The formula's constant term, in thousandths.
    pub open spec fn base_milli(self) -> nat {
        match self {
            Language::English => 206835,
            Language::French => 207000,
            Language::German => 180000,
            Language::Dutch => 206835,
            Language::Polish => 206835,
            Language::Bulgarian => 206835,
        }
    }

    /// The weight of the words-per-sentence ratio, in thousandths.
    pub open spec fn sentence_weight_milli(self) -> nat {
        match self {
            Language::English => 1015,
            Language::French => 1015,
            Language::German => 1000,
            Language::Dutch => 930,
            Language::Polish => 1300,
            Language::Bulgarian => 1500,
        }
    }

    /// The weight of the syllables-per-word ratio, in thousandths.
    pub open spec fn syllable_weight_milli(self) -> nat {
        match self {
            Language::English => 84600,
            Language::French => 73600,
            Language::German => 58500,
            Language::Dutch => 77000,
            Language::Polish => 85600,
            Language::Bulgarian => 60000,
        }
    }

    /// The three coefficients of the language's formula, in thousandths:
    /// the constant term, the words-per-sentence weight and the
    /// syllables-per-word weight.
    pub fn coefficients(&self) -> (r: (u64, u64, u64))
        ensures
            r.0 == self.base_milli(),
            r.1 == self.sentence_weight_milli(),
            r.2 == self.syllable_weight_milli(),
    {
        match self {
            Language::English => (206835, 1015, 84600),
            Language::French => (207000, 1015, 73600),
            Language::German => (180000, 1000, 58500),
            Language::Dutch => (206835, 930, 77000),
            Language::Polish => (206835, 1300, 85600),
            Language::Bulgarian => (206835, 1500, 60000),
        }
    }
}

} // verus!
