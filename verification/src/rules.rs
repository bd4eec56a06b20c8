//! The CLDR cardinal plural rule algorithms and the table that maps a
//! normalized base-language code to one of them.
//!
//! Each algorithm is a pure, total function from the numeric operands to a
//! plural category; conditions are evaluated top to bottom and `Other` is the
//! final fallback.  Codes without a dedicated algorithm use the one/other
//! default.

use vstd::prelude::*;

use crate::category::PluralCategory;
use crate::operands::PluralOperands;
use crate::text::str_eq;

verus! {

/// Identifies one of the rule algorithms.  The mapping from base-language
/// codes to kinds is fixed data; adding a locale is a data change, not a
/// control-flow change.
#[derive(Clone, Copy, Debug, PartialEq, Eq, Structural)]
pub enum RuleKind {
    NoPlural,
    OneOther,
    French,
    Spanish,
    Russian,
    Polish,
    Czech,
    Arabic,
    Hebrew,
    Romanian,
    Latvian,
    Lithuanian,
    Slovenian,
    Irish,
    Welsh,
    Maltese,
    Macedonian,
    Icelandic,
    Filipino,
    Hindi,
}

/// The operands describe the exact whole number `k`: integer part `k` and no
/// visible fraction.
pub open spec fn spec_n_eq(op: PluralOperands, k: nat) -> bool {
    op.i == k && op.v == 0 && op.f == 0
}

/// Always `Other`: languages without plural distinctions.
pub open spec fn spec_rule_no_plural(op: PluralOperands) -> PluralCategory {
    PluralCategory::Other
}

/// `One` for integer 1, else `Other` (also the default for unknown codes).
pub open spec fn spec_rule_one_other(op: PluralOperands) -> PluralCategory {
    if op.i == 1 && op.v == 0 {
        PluralCategory::One
    } else {
        PluralCategory::Other
    }
}

/// `One` when the integer part is 0 or 1.
pub open spec fn spec_rule_french(op: PluralOperands) -> PluralCategory {
    if op.i == 0 || op.i == 1 {
        PluralCategory::One
    } else {
        PluralCategory::Other
    }
}

/// `One` for exactly 1; `Many` for whole nonzero multiples of a million.
pub open spec fn spec_rule_spanish(op: PluralOperands) -> PluralCategory {
    if spec_n_eq(op, 1) {
        PluralCategory::One
    } else if op.i != 0 && op.i % 1000000 == 0 && op.v == 0 {
        PluralCategory::Many
    } else {
        PluralCategory::Other
    }
}

/// East Slavic rules over the last one and two integer digits.
pub open spec fn spec_rule_russian(op: PluralOperands) -> PluralCategory {
    if op.v == 0 {
        if op.i % 10 == 1 && op.i % 100 != 11 {
            PluralCategory::One
        } else if 2 <= op.i % 10 <= 4 && !(12 <= op.i % 100 <= 14) {
            PluralCategory::Few
        } else if op.i % 10 == 0 || 5 <= op.i % 10 <= 9 || 11 <= op.i % 100 <= 14 {
            PluralCategory::Many
        } else {
            PluralCategory::Other
        }
    } else {
        PluralCategory::Other
    }
}

/// Polish rules, with a wide `Many` bucket.
pub open spec fn spec_rule_polish(op: PluralOperands) -> PluralCategory {
    if op.i == 1 && op.v == 0 {
        PluralCategory::One
    } else if op.v == 0 && 2 <= op.i % 10 <= 4 && !(12 <= op.i % 100 <= 14) {
        PluralCategory::Few
    } else if (op.v == 0 && (op.i != 1 && op.i % 10 <= 1)) || (op.v == 0 && 5 <= op.i % 10 <= 9)
        || (op.v == 0 && 12 <= op.i % 100 <= 14) {
        PluralCategory::Many
    } else {
        PluralCategory::Other
    }
}

/// Czech and Slovak rules: `Few` for whole 2..4, `Many` for fractions.
pub open spec fn spec_rule_czech(op: PluralOperands) -> PluralCategory {
    if op.i == 1 && op.v == 0 {
        PluralCategory::One
    } else if 2 <= op.i <= 4 && op.v == 0 {
        PluralCategory::Few
    } else if op.v != 0 {
        PluralCategory::Many
    } else {
        PluralCategory::Other
    }
}

/// Arabic rules: dedicated zero/one/two, then ranges of the last two digits.
pub open spec fn spec_rule_arabic(op: PluralOperands) -> PluralCategory {
    if spec_n_eq(op, 0) {
        PluralCategory::Zero
    } else if spec_n_eq(op, 1) {
        PluralCategory::One
    } else if spec_n_eq(op, 2) {
        PluralCategory::Two
    } else if 3 <= op.i % 100 <= 10 {
        PluralCategory::Few
    } else if 11 <= op.i % 100 <= 99 {
        PluralCategory::Many
    } else {
        PluralCategory::Other
    }
}

/// Hebrew rules: dual form and `Many` for whole tens above ten.
pub open spec fn spec_rule_hebrew(op: PluralOperands) -> PluralCategory {
    if op.i == 1 && op.v == 0 {
        PluralCategory::One
    } else if op.i == 2 && op.v == 0 {
        PluralCategory::Two
    } else if op.v == 0 && !(op.i <= 10) && op.i % 10 == 0 {
        PluralCategory::Many
    } else {
        PluralCategory::Other
    }
}

/// Romanian rules: a broad `Few` bucket for fractions and small remainders.
pub open spec fn spec_rule_romanian(op: PluralOperands) -> PluralCategory {
    if op.i == 1 && op.v == 0 {
        PluralCategory::One
    } else if op.v != 0 || spec_n_eq(op, 0) || (op.i != 1 && 1 <= op.i % 100 <= 19) {
        PluralCategory::Few
    } else {
        PluralCategory::Other
    }
}

/// Latvian rules, sensitive to the fraction digits as well.
pub open spec fn spec_rule_latvian(op: PluralOperands) -> PluralCategory {
    if spec_n_eq(op, 0) {
        PluralCategory::Zero
    } else if (op.i % 10 == 1 && op.i % 100 != 11) || (op.v == 2 && op.f % 10 == 1 && op.f % 100
        != 11) || (op.v != 2 && op.f % 10 == 1) {
        PluralCategory::One
    } else {
        PluralCategory::Other
    }
}

/// Lithuanian rules: `Many` whenever fraction digits are present.
pub open spec fn spec_rule_lithuanian(op: PluralOperands) -> PluralCategory {
    if op.i % 10 == 1 && !(11 <= op.i % 100 <= 19) {
        PluralCategory::One
    } else if 2 <= op.i % 10 <= 9 && !(11 <= op.i % 100 <= 19) {
        PluralCategory::Few
    } else if op.f != 0 {
        PluralCategory::Many
    } else {
        PluralCategory::Other
    }
}

/// Slovenian rules over the last two integer digits.
pub open spec fn spec_rule_slovenian(op: PluralOperands) -> PluralCategory {
    if op.v == 0 && op.i % 100 == 1 {
        PluralCategory::One
    } else if op.v == 0 && op.i % 100 == 2 {
        PluralCategory::Two
    } else if (op.v == 0 && 3 <= op.i % 100 <= 4) || op.v != 0 {
        PluralCategory::Few
    } else {
        PluralCategory::Other
    }
}

/// Irish rules: exact 1 and 2, then the real-valued bands `n` in [3, 6] and
/// [7, 10] (so 3.5 falls in `Few` and 7.5 in `Many`).
pub open spec fn spec_rule_irish(op: PluralOperands) -> PluralCategory {
    if spec_n_eq(op, 1) {
        PluralCategory::One
    } else if spec_n_eq(op, 2) {
        PluralCategory::Two
    } else if 3 <= op.i <= 5 || spec_n_eq(op, 6) {
        PluralCategory::Few
    } else if 7 <= op.i <= 9 || spec_n_eq(op, 10) {
        PluralCategory::Many
    } else {
        PluralCategory::Other
    }
}

/// Welsh rules: exact whole-number matches 0, 1, 2, 3 and 6.
pub open spec fn spec_rule_welsh(op: PluralOperands) -> PluralCategory {
    if spec_n_eq(op, 0) {
        PluralCategory::Zero
    } else if spec_n_eq(op, 1) {
        PluralCategory::One
    } else if spec_n_eq(op, 2) {
        PluralCategory::Two
    } else if spec_n_eq(op, 3) {
        PluralCategory::Few
    } else if spec_n_eq(op, 6) {
        PluralCategory::Many
    } else {
        PluralCategory::Other
    }
}

/// Maltese rules over the last two integer digits.
pub open spec fn spec_rule_maltese(op: PluralOperands) -> PluralCategory {
    if spec_n_eq(op, 1) {
        PluralCategory::One
    } else if spec_n_eq(op, 0) || 2 <= op.i % 100 <= 10 {
        PluralCategory::Few
    } else if 11 <= op.i % 100 <= 19 {
        PluralCategory::Many
    } else {
        PluralCategory::Other
    }
}

/// Macedonian rules, also reading the fraction digits.
pub open spec fn spec_rule_macedonian(op: PluralOperands) -> PluralCategory {
    if (op.v == 0 && op.i % 10 == 1 && op.i % 100 != 11) || (op.f % 10 == 1 && op.f % 100 != 11) {
        PluralCategory::One
    } else {
        PluralCategory::Other
    }
}

/// Icelandic rules: `One` when the trimmed fraction is empty and the integer
/// ends in 1 but not 11.
pub open spec fn spec_rule_icelandic(op: PluralOperands) -> PluralCategory {
    if op.t == 0 && op.i % 10 == 1 && op.i % 100 != 11 {
        PluralCategory::One
    } else {
        PluralCategory::Other
    }
}

/// Filipino rules: `One` except for last digits 4, 6 and 9.
pub open spec fn spec_rule_filipino(op: PluralOperands) -> PluralCategory {
    if (op.v == 0 && (op.i == 1 || op.i == 2 || op.i == 3)) || (op.v == 0 && op.i % 10 != 4
        && op.i % 10 != 6 && op.i % 10 != 9) || (op.v != 0 && op.f % 10 != 4 && op.f % 10 != 6
        && op.f % 10 != 9) {
        PluralCategory::One
    } else {
        PluralCategory::Other
    }
}

/// Hindi and Bangla rules: `One` for zero integer part or exactly 1.
pub open spec fn spec_rule_hindi(op: PluralOperands) -> PluralCategory {
    if op.i == 0 || spec_n_eq(op, 1) {
        PluralCategory::One
    } else {
        PluralCategory::Other
    }
}

/// The category the given rule algorithm assigns to the operands.
pub open spec fn spec_apply_rule(kind: RuleKind, op: PluralOperands) -> PluralCategory {
    match kind {
        RuleKind::NoPlural => spec_rule_no_plural(op),
        RuleKind::OneOther => spec_rule_one_other(op),
        RuleKind::French => spec_rule_french(op),
        RuleKind::Spanish => spec_rule_spanish(op),
        RuleKind::Russian => spec_rule_russian(op),
        RuleKind::Polish => spec_rule_polish(op),
        RuleKind::Czech => spec_rule_czech(op),
        RuleKind::Arabic => spec_rule_arabic(op),
        RuleKind::Hebrew => spec_rule_hebrew(op),
        RuleKind::Romanian => spec_rule_romanian(op),
        RuleKind::Latvian => spec_rule_latvian(op),
        RuleKind::Lithuanian => spec_rule_lithuanian(op),
        RuleKind::Slovenian => spec_rule_slovenian(op),
        RuleKind::Irish => spec_rule_irish(op),
        RuleKind::Welsh => spec_rule_welsh(op),
        RuleKind::Maltese => spec_rule_maltese(op),
        RuleKind::Macedonian => spec_rule_macedonian(op),
        RuleKind::Icelandic => spec_rule_icelandic(op),
        RuleKind::Filipino => spec_rule_filipino(op),
        RuleKind::Hindi => spec_rule_hindi(op),
    }
}

/// The rule algorithm for a normalized base-language code; codes without a
/// dedicated algorithm fall back to the one/other default.
pub open spec fn spec_rule_for(base: Seq<char>) -> RuleKind {
    if base == "ja"@ || base == "ko"@ || base == "zh"@ || base == "vi"@ || base == "th"@ || base
        == "lo"@ || base == "my"@ {
        RuleKind::NoPlural
    } else if base == "en"@ || base == "de"@ || base == "nl"@ || base == "sv"@ || base == "da"@
        || base == "no"@ || base == "nb"@ || base == "nn"@ || base == "tr"@ || base == "az"@ {
        RuleKind::OneOther
    } else if base == "fr"@ || base == "it"@ || base == "pt"@ {
        RuleKind::French
    } else if base == "es"@ {
        RuleKind::Spanish
    } else if base == "ru"@ || base == "uk"@ || base == "be"@ {
        RuleKind::Russian
    } else if base == "pl"@ {
        RuleKind::Polish
    } else if base == "cs"@ || base == "sk"@ {
        RuleKind::Czech
    } else if base == "ar"@ {
        RuleKind::Arabic
    } else if base == "he"@ || base == "iw"@ {
        RuleKind::Hebrew
    } else if base == "ro"@ || base == "mo"@ {
        RuleKind::Romanian
    } else if base == "lv"@ {
        RuleKind::Latvian
    } else if base == "lt"@ {
        RuleKind::Lithuanian
    } else if base == "sl"@ {
        RuleKind::Slovenian
    } else if base == "ga"@ {
        RuleKind::Irish
    } else if base == "cy"@ {
        RuleKind::Welsh
    } else if base == "mt"@ {
        RuleKind::Maltese
    } else if base == "mk"@ {
        RuleKind::Macedonian
    } else if base == "is"@ {
        RuleKind::Icelandic
    } else if base == "fil"@ || base == "tl"@ {
        RuleKind::Filipino
    } else if base == "hi"@ || base == "bn"@ {
        RuleKind::Hindi
    } else {
        RuleKind::OneOther
    }
}

/// Always `Other`: languages without plural distinctions.
pub fn rule_no_plural(op: PluralOperands) -> (r: PluralCategory)
    ensures
        r == spec_rule_no_plural(op),
{
    PluralCategory::Other
}

/// `One` for integer 1, else `Other` (also the default for unknown codes).
pub fn rule_one_other(op: PluralOperands) -> (r: PluralCategory)
    ensures
        r == spec_rule_one_other(op),
{
    if op.i == 1 && op.v == 0 {
        PluralCategory::One
    } else {
        PluralCategory::Other
    }
}

/// `One` when the integer part is 0 or 1.
pub fn rule_french(op: PluralOperands) -> (r: PluralCategory)
    ensures
        r == spec_rule_french(op),
{
    if op.i == 0 || op.i == 1 {
        PluralCategory::One
    } else {
        PluralCategory::Other
    }
}

/// `One` for exactly 1; `Many` for whole nonzero multiples of a million.
pub fn rule_spanish(op: PluralOperands) -> (r: PluralCategory)
    ensures
        r == spec_rule_spanish(op),
{
    if op.i == 1 && op.v == 0 && op.f == 0 {
        PluralCategory::One
    } else if op.i != 0 && op.i % 1000000 == 0 && op.v == 0 {
        PluralCategory::Many
    } else {
        PluralCategory::Other
    }
}

/// East Slavic rules over the last one and two integer digits.
pub fn rule_russian(op: PluralOperands) -> (r: PluralCategory)
    ensures
        r == spec_rule_russian(op),
{
    let mod10 = op.i % 10;
    let mod100 = op.i % 100;
    if op.v == 0 {
        if mod10 == 1 && mod100 != 11 {
            PluralCategory::One
        } else if 2 <= mod10 && mod10 <= 4 && !(12 <= mod100 && mod100 <= 14) {
            PluralCategory::Few
        } else if mod10 == 0 || (5 <= mod10 && mod10 <= 9) || (11 <= mod100 && mod100 <= 14) {
            PluralCategory::Many
        } else {
            PluralCategory::Other
        }
    } else {
        PluralCategory::Other
    }
}

/// Polish rules, with a wide `Many` bucket.
pub fn rule_polish(op: PluralOperands) -> (r: PluralCategory)
    ensures
        r == spec_rule_polish(op),
{
    let mod10 = op.i % 10;
    let mod100 = op.i % 100;
    if op.i == 1 && op.v == 0 {
        PluralCategory::One
    } else if op.v == 0 && 2 <= mod10 && mod10 <= 4 && !(12 <= mod100 && mod100 <= 14) {
        PluralCategory::Few
    } else if (op.v == 0 && (op.i != 1 && mod10 <= 1)) || (op.v == 0 && 5 <= mod10 && mod10 <= 9)
        || (op.v == 0 && 12 <= mod100 && mod100 <= 14) {
        PluralCategory::Many
    } else {
        PluralCategory::Other
    }
}

/// Czech and Slovak rules: `Few` for whole 2..4, `Many` for fractions.
pub fn rule_czech(op: PluralOperands) -> (r: PluralCategory)
    ensures
        r == spec_rule_czech(op),
{
    if op.i == 1 && op.v == 0 {
        PluralCategory::One
    } else if 2 <= op.i && op.i <= 4 && op.v == 0 {
        PluralCategory::Few
    } else if op.v != 0 {
        PluralCategory::Many
    } else {
        PluralCategory::Other
    }
}

/// Arabic rules: dedicated zero/one/two, then ranges of the last two digits.
pub fn rule_arabic(op: PluralOperands) -> (r: PluralCategory)
    ensures
        r == spec_rule_arabic(op),
{
    let whole = op.v == 0 && op.f == 0;
    let mod100 = op.i % 100;
    if whole && op.i == 0 {
        PluralCategory::Zero
    } else if whole && op.i == 1 {
        PluralCategory::One
    } else if whole && op.i == 2 {
        PluralCategory::Two
    } else if 3 <= mod100 && mod100 <= 10 {
        PluralCategory::Few
    } else if 11 <= mod100 && mod100 <= 99 {
        PluralCategory::Many
    } else {
        PluralCategory::Other
    }
}

/// Hebrew rules: dual form and `Many` for whole tens above ten.
pub fn rule_hebrew(op: PluralOperands) -> (r: PluralCategory)
    ensures
        r == spec_rule_hebrew(op),
{
    if op.i == 1 && op.v == 0 {
        PluralCategory::One
    } else if op.i == 2 && op.v == 0 {
        PluralCategory::Two
    } else if op.v == 0 && op.i > 10 && op.i % 10 == 0 {
        PluralCategory::Many
    } else {
        PluralCategory::Other
    }
}

/// Romanian rules: a broad `Few` bucket for fractions and small remainders.
pub fn rule_romanian(op: PluralOperands) -> (r: PluralCategory)
    ensures
        r == spec_rule_romanian(op),
{
    let mod100 = op.i % 100;
    if op.i == 1 && op.v == 0 {
        PluralCategory::One
    } else if op.v != 0 || (op.i == 0 && op.f == 0) || (op.i != 1 && 1 <= mod100 && mod100 <= 19) {
        PluralCategory::Few
    } else {
        PluralCategory::Other
    }
}

/// Latvian rules, sensitive to the fraction digits as well.
pub fn rule_latvian(op: PluralOperands) -> (r: PluralCategory)
    ensures
        r == spec_rule_latvian(op),
{
    let mod10 = op.i % 10;
    let mod100 = op.i % 100;
    let fmod10 = op.f % 10;
    let fmod100 = op.f % 100;
    if op.i == 0 && op.v == 0 && op.f == 0 {
        PluralCategory::Zero
    } else if (mod10 == 1 && mod100 != 11) || (op.v == 2 && fmod10 == 1 && fmod100 != 11) || (op.v
        != 2 && fmod10 == 1) {
        PluralCategory::One
    } else {
        PluralCategory::Other
    }
}

/// Lithuanian rules: `Many` whenever fraction digits are present.
pub fn rule_lithuanian(op: PluralOperands) -> (r: PluralCategory)
    ensures
        r == spec_rule_lithuanian(op),
{
    let mod10 = op.i % 10;
    let mod100 = op.i % 100;
    if mod10 == 1 && !(11 <= mod100 && mod100 <= 19) {
        PluralCategory::One
    } else if 2 <= mod10 && mod10 <= 9 && !(11 <= mod100 && mod100 <= 19) {
        PluralCategory::Few
    } else if op.f != 0 {
        PluralCategory::Many
    } else {
        PluralCategory::Other
    }
}

/// Slovenian rules over the last two integer digits.
pub fn rule_slovenian(op: PluralOperands) -> (r: PluralCategory)
    ensures
        r == spec_rule_slovenian(op),
{
    let mod100 = op.i % 100;
    if op.v == 0 && mod100 == 1 {
        PluralCategory::One
    } else if op.v == 0 && mod100 == 2 {
        PluralCategory::Two
    } else if (op.v == 0 && 3 <= mod100 && mod100 <= 4) || op.v != 0 {
        PluralCategory::Few
    } else {
        PluralCategory::Other
    }
}

/// Irish rules: exact 1 and 2, then the real-valued bands `n` in [3, 6] and
/// [7, 10] (so 3.5 falls in `Few` and 7.5 in `Many`).
pub fn rule_irish(op: PluralOperands) -> (r: PluralCategory)
    ensures
        r == spec_rule_irish(op),
{
    let whole = op.v == 0 && op.f == 0;
    if whole && op.i == 1 {
        PluralCategory::One
    } else if whole && op.i == 2 {
        PluralCategory::Two
    } else if (3 <= op.i && op.i <= 5) || (whole && op.i == 6) {
        PluralCategory::Few
    } else if (7 <= op.i && op.i <= 9) || (whole && op.i == 10) {
        PluralCategory::Many
    } else {
        PluralCategory::Other
    }
}

/// Welsh rules: exact whole-number matches 0, 1, 2, 3 and 6.
pub fn rule_welsh(op: PluralOperands) -> (r: PluralCategory)
    ensures
        r == spec_rule_welsh(op),
{
    let whole = op.v == 0 && op.f == 0;
    if whole && op.i == 0 {
        PluralCategory::Zero
    } else if whole && op.i == 1 {
        PluralCategory::One
    } else if whole && op.i == 2 {
        PluralCategory::Two
    } else if whole && op.i == 3 {
        PluralCategory::Few
    } else if whole && op.i == 6 {
        PluralCategory::Many
    } else {
        PluralCategory::Other
    }
}

/// Maltese rules over the last two integer digits.
pub fn rule_maltese(op: PluralOperands) -> (r: PluralCategory)
    ensures
        r == spec_rule_maltese(op),
{
    let whole = op.v == 0 && op.f == 0;
    let mod100 = op.i % 100;
    if whole && op.i == 1 {
        PluralCategory::One
    } else if (whole && op.i == 0) || (2 <= mod100 && mod100 <= 10) {
        PluralCategory::Few
    } else if 11 <= mod100 && mod100 <= 19 {
        PluralCategory::Many
    } else {
        PluralCategory::Other
    }
}

/// Macedonian rules, also reading the fraction digits.
pub fn rule_macedonian(op: PluralOperands) -> (r: PluralCategory)
    ensures
        r == spec_rule_macedonian(op),
{
    let mod10 = op.i % 10;
    let mod100 = op.i % 100;
    let fmod10 = op.f % 10;
    let fmod100 = op.f % 100;
    if (op.v == 0 && mod10 == 1 && mod100 != 11) || (fmod10 == 1 && fmod100 != 11) {
        PluralCategory::One
    } else {
        PluralCategory::Other
    }
}

/// Icelandic rules: `One` when the trimmed fraction is empty and the integer
/// ends in 1 but not 11.
pub fn rule_icelandic(op: PluralOperands) -> (r: PluralCategory)
    ensures
        r == spec_rule_icelandic(op),
{
    let mod10 = op.i % 10;
    let mod100 = op.i % 100;
    if op.t == 0 && mod10 == 1 && mod100 != 11 {
        PluralCategory::One
    } else {
        PluralCategory::Other
    }
}

/// Filipino rules: `One` except for last digits 4, 6 and 9.
pub fn rule_filipino(op: PluralOperands) -> (r: PluralCategory)
    ensures
        r == spec_rule_filipino(op),
{
    let mod10 = op.i % 10;
    let fmod10 = op.f % 10;
    if (op.v == 0 && (op.i == 1 || op.i == 2 || op.i == 3)) || (op.v == 0 && mod10 != 4 && mod10
        != 6 && mod10 != 9) || (op.v != 0 && fmod10 != 4 && fmod10 != 6 && fmod10 != 9) {
        PluralCategory::One
    } else {
        PluralCategory::Other
    }
}

/// Hindi and Bangla rules: `One` for zero integer part or exactly 1.
pub fn rule_hindi(op: PluralOperands) -> (r: PluralCategory)
    ensures
        r == spec_rule_hindi(op),
{
    if op.i == 0 || (op.i == 1 && op.v == 0 && op.f == 0) {
        PluralCategory::One
    } else {
        PluralCategory::Other
    }
}

/// Runs the rule algorithm identified by `kind` on the operands.
pub fn apply_rule(kind: RuleKind, op: PluralOperands) -> (r: PluralCategory)
    ensures
        r == spec_apply_rule(kind, op),
{
    match kind {
        RuleKind::NoPlural => rule_no_plural(op),
        RuleKind::OneOther => rule_one_other(op),
        RuleKind::French => rule_french(op),
        RuleKind::Spanish => rule_spanish(op),
        RuleKind::Russian => rule_russian(op),
        RuleKind::Polish => rule_polish(op),
        RuleKind::Czech => rule_czech(op),
        RuleKind::Arabic => rule_arabic(op),
        RuleKind::Hebrew => rule_hebrew(op),
        RuleKind::Romanian => rule_romanian(op),
        RuleKind::Latvian => rule_latvian(op),
        RuleKind::Lithuanian => rule_lithuanian(op),
        RuleKind::Slovenian => rule_slovenian(op),
        RuleKind::Irish => rule_irish(op),
        RuleKind::Welsh => rule_welsh(op),
        RuleKind::Maltese => rule_maltese(op),
        RuleKind::Macedonian => rule_macedonian(op),
        RuleKind::Icelandic => rule_icelandic(op),
        RuleKind::Filipino => rule_filipino(op),
        RuleKind::Hindi => rule_hindi(op),
    }
}

/// Looks up the rule algorithm for a normalized base-language code.
pub fn rule_for_base(base: &str) -> (k: RuleKind)
    ensures
        k == spec_rule_for(base@),
{
    if str_eq(base, "ja") || str_eq(base, "ko") || str_eq(base, "zh") || str_eq(base, "vi")
        || str_eq(base, "th") || str_eq(base, "lo") || str_eq(base, "my") {
        RuleKind::NoPlural
    } else if str_eq(base, "en") || str_eq(base, "de") || str_eq(base, "nl") || str_eq(base, "sv")
        || str_eq(base, "da") || str_eq(base, "no") || str_eq(base, "nb") || str_eq(base, "nn")
        || str_eq(base, "tr") || str_eq(base, "az") {
        RuleKind::OneOther
    } else if str_eq(base, "fr") || str_eq(base, "it") || str_eq(base, "pt") {
        RuleKind::French
    } else if str_eq(base, "es") {
        RuleKind::Spanish
    } else if str_eq(base, "ru") || str_eq(base, "uk") || str_eq(base, "be") {
        RuleKind::Russian
    } else if str_eq(base, "pl") {
        RuleKind::Polish
    } else if str_eq(base, "cs") || str_eq(base, "sk") {
        RuleKind::Czech
    } else if str_eq(base, "ar") {
        RuleKind::Arabic
    } else if str_eq(base, "he") || str_eq(base, "iw") {
        RuleKind::Hebrew
    } else if str_eq(base, "ro") || str_eq(base, "mo") {
        RuleKind::Romanian
    } else if str_eq(base, "lv") {
        RuleKind::Latvian
    } else if str_eq(base, "lt") {
        RuleKind::Lithuanian
    } else if str_eq(base, "sl") {
        RuleKind::Slovenian
    } else if str_eq(base, "ga") {
        RuleKind::Irish
    } else if str_eq(base, "cy") {
        RuleKind::Welsh
    } else if str_eq(base, "mt") {
        RuleKind::Maltese
    } else if str_eq(base, "mk") {
        RuleKind::Macedonian
    } else if str_eq(base, "is") {
        RuleKind::Icelandic
    } else if str_eq(base, "fil") || str_eq(base, "tl") {
        RuleKind::Filipino
    } else if str_eq(base, "hi") || str_eq(base, "bn") {
        RuleKind::Hindi
    } else {
        RuleKind::OneOther
    }
}

} // verus!
