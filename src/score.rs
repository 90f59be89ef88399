use vstd::prelude::*;
use vstd::arithmetic::div_mod::{
    lemma_div_is_ordered, lemma_fundamental_div_mod, lemma_fundamental_div_mod_converse,
};
use crate::language::Language;

verus! {

/// Scores are given in units of `1 / SCORE_SCALE`: a score of `100` is
/// `100 * SCORE_SCALE`.
pub const SCORE_SCALE: u64 = 1_000_000_000_000;

/// The largest score, in units of `1 / SCORE_SCALE`.
pub const MAX_SCALED_SCORE: u64 = 100 * SCORE_SCALE;

/// A value in units of `1 / SCORE_SCALE`, held to the range `[0, 100]`.
pub open spec fn clamp_scaled(x: int) -> int {
    if x < 0 {
        0
    } else if x > MAX_SCALED_SCORE {
        MAX_SCALED_SCORE as int
    } else {
        x
    }
}

/// The formula `base - a * (w / s) - b * (y / w)` multiplied by
/// `1000 * s * w`, with the coefficients of `language` in thousandths.
pub open spec fn formula_numerator(language: Language, s: nat, w: nat, y: nat) -> int {
    language.base_milli() * s * w - language.sentence_weight_milli() * w * w
        - language.syllable_weight_milli() * y * s
}

/// The score of a text with `s` sentence terminators, `w` words and `y`
/// syllables, in units of `1 / SCORE_SCALE`, rounded down and clamped to
/// `[0, 100]`; `0` where there is no sentence or no word.
pub open spec fn scaled_score(language: Language, s: nat, w: nat, y: nat) -> int {
    if s == 0 || w == 0 {
        0
    } else {
        clamp_scaled(formula_numerator(language, s, w, y) * 1_000_000_000 / (s * w) as int)
    }
}

/// Rounding down `t - e / p` where `e / p` lies in `[c - 1, c]`.
proof fn lemma_floor_of_shifted(x: int, p: int, t: int, e: int, c: int)
    requires
        p > 0,
        x == t * p - e,
        0 <= c * p - e < p,
    ensures
        x / p == t - c,
{
    assert(x == (t - c) * p + (c * p - e)) by (nonlinear_arith)
        requires
            x == t * p - e,
    ;
    lemma_fundamental_div_mod_converse(x, p, t - c, c * p - e);
}

/// With the sentences and words held fixed, more syllables never raise the
/// score, in any language.
pub proof fn lemma_syllables_never_raise_score(
    language: Language,
    s: nat,
    w: nat,
    y1: nat,
    y2: nat,
)
    requires
        y1 <= y2,
    ensures
        scaled_score(language, s, w, y2) <= scaled_score(language, s, w, y1),
{
    if s > 0 && w > 0 {
        let n1 = formula_numerator(language, s, w, y1);
        let n2 = formula_numerator(language, s, w, y2);
        let b = language.syllable_weight_milli();
        assert(n2 * 1_000_000_000 <= n1 * 1_000_000_000) by (nonlinear_arith)
            requires
                n1 - n2 == b * y2 * s - b * y1 * s,
                y1 <= y2,
                b >= 0,
                s >= 0,
        ;
        assert((s * w) as int > 0) by (nonlinear_arith)
            requires
                s > 0,
                w > 0,
        ;
        lemma_div_is_ordered(n2 * 1_000_000_000, n1 * 1_000_000_000, (s * w) as int);
    }
}

/// The score for the given counts, in units of `1 / SCORE_SCALE`, rounded
/// down and clamped to `[0, 100]`.
pub fn score_from_counts(language: Language, sentences: usize, words: usize, syllables: usize) -> (r: u64)
    ensures
        r == scaled_score(language, sentences as nat, words as nat, syllables as nat),
        r <= MAX_SCALED_SCORE,
{
    if sentences == 0 || words == 0 {
        return 0;
    }
    let (base, a, b) = language.coefficients();
    let s = sentences as u128;
    let w = words as u128;
    let y = syllables as u128;
    assert(s < 0x1_0000_0000_0000_0000 && w < 0x1_0000_0000_0000_0000 && y < 0x1_0000_0000_0000_0000);
    let k: u128 = base as u128 * 1_000_000_000;
    assert(a * 1_000_000_000 * w <= 1500 * 1_000_000_000 * 0x1_0000_0000_0000_0000) by (nonlinear_arith)
        requires
            a <= 1500,
            w < 0x1_0000_0000_0000_0000,
    ;
    let big_a: u128 = a as u128 * 1_000_000_000 * w;
    assert(b * 1_000_000_000 * y <= 85600 * 1_000_000_000 * 0x1_0000_0000_0000_0000) by (nonlinear_arith)
        requires
            b <= 85600,
            y < 0x1_0000_0000_0000_0000,
    ;
    let big_b: u128 = b as u128 * 1_000_000_000 * y;
    let qa = big_a / s;
    let ra = big_a % s;
    let qb = big_b / w;
    let rb = big_b % w;
    proof {
        lemma_fundamental_div_mod(big_a as int, s as int);
        lemma_fundamental_div_mod(big_b as int, w as int);
        assert(qa <= big_a && qb <= big_b) by (nonlinear_arith)
            requires
                big_a == s * qa + ra,
                big_b == w * qb + rb,
                s >= 1,
                w >= 1,
                ra >= 0,
                rb >= 0,
                qa >= 0,
                qb >= 0,
        ;
        assert(s * w < 0x1_0000_0000_0000_0000 * 0x1_0000_0000_0000_0000) by (nonlinear_arith)
            requires
                s < 0x1_0000_0000_0000_0000,
                w < 0x1_0000_0000_0000_0000,
        ;
        assert(ra * w < s * w && s * (w - rb) <= s * w && s * w > 0) by (nonlinear_arith)
            requires
                ra < s,
                rb < w,
                rb >= 0,
                s >= 1,
                w >= 1,
        ;
    }
    let c: u128 = if ra == 0 && rb == 0 {
        0
    } else if ra * w <= s * (w - rb) {
        1
    } else {
        2
    };
    proof {
        let p = s as int * w as int;
        let e = ra as int * w as int + rb as int * s as int;
        let t = k as int - qa as int - qb as int;
        let n = formula_numerator(language, sentences as nat, words as nat, syllables as nat);
        assert(n * 1_000_000_000 == t * p - e) by (nonlinear_arith)
            requires
                n == base * s * w - a * w * w - b * y * s,
                k == base * 1_000_000_000,
                big_a == a * 1_000_000_000 * w,
                big_b == b * 1_000_000_000 * y,
                big_a == s * qa + ra,
                big_b == w * qb + rb,
                p == s * w,
                e == ra * w + rb * s,
                t == k - qa - qb,
        ;
        assert(0 <= c * p - e < p) by (nonlinear_arith)
            requires
                p == s * w,
                e == ra * w + rb * s,
                0 <= ra < s,
                0 <= rb < w,
                c == 0 ==> ra == 0 && rb == 0,
                c == 1 ==> (ra != 0 || rb != 0) && ra * w <= s * (w - rb),
                c == 2 ==> ra * w > s * (w - rb),
                c == 0 || c == 1 || c == 2,
        ;
        lemma_floor_of_shifted(n * 1_000_000_000, p, t, e, c as int);
    }
    let sub = qa + qb + c;
    if sub >= k {
        0
    } else {
        let v = k - sub;
        if v > MAX_SCALED_SCORE as u128 {
            MAX_SCALED_SCORE
        } else {
            v as u64
        }
    }
}

} // verus!
