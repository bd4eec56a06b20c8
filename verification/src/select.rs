//! The public plural-category selector.
//!
//! `PluralRules` holds a normalized locale and maps quantities to categories
//! by deriving the CLDR operands and running the locale's rule algorithm.

use vstd::prelude::*;
use vstd::string::StringExecFns;

use crate::category::PluralCategory;
use crate::category::spec_category_name;
use crate::locale::normalize_locale;
use crate::locale::spec_normalize;
use crate::operands::Decimal;
use crate::operands::PluralOperands;
use crate::operands::extract_operands;
use crate::rules::RuleKind;
use crate::rules::apply_rule;
use crate::rules::rule_for_base;
use crate::rules::spec_apply_rule;
use crate::rules::spec_rule_for;

verus! {

/// The category that the rule table assigns to a quantity under an
/// already-normalized base-language code.
pub open spec fn spec_select_base(base: Seq<char>, d: Decimal) -> PluralCategory {
    spec_apply_rule(spec_rule_for(base), PluralOperands::spec_of(d))
}

/// The category for a quantity under an arbitrary locale identifier.
pub open spec fn spec_select(locale: Seq<char>, d: Decimal) -> PluralCategory {
    spec_select_base(spec_normalize(locale), d)
}

/// A plural-rules selector bound to one normalized locale.
pub struct PluralRules {
    locale: String,
}

impl PluralRules {
    /// The normalized base-language code this selector uses.
    pub closed spec fn spec_locale(&self) -> Seq<char> {
        self.locale@
    }

    /// Creates a selector for a locale identifier; the identifier is reduced
    /// to its lowercased base-language subtag.
    pub fn new(locale: &str) -> (r: PluralRules)
        ensures
            r.spec_locale() == spec_normalize(locale@),
    {
        PluralRules { locale: normalize_locale(locale) }
    }

    /// Selects the plural category for a quantity.  The sign of the quantity
    /// never affects the category.
    pub fn select(&self, n: Decimal) -> (r: PluralCategory)
        requires
            n.wf(),
        ensures
            r == spec_select_base(self.spec_locale(), n),
    {
        let kind: RuleKind = rule_for_base(self.locale.as_str());
        let op: PluralOperands = extract_operands(n);
        apply_rule(kind, op)
    }

    /// The locale code being used.
    pub fn get_locale(&self) -> (r: String)
        ensures
            r@ == self.spec_locale(),
    {
        self.locale.clone()
    }

    /// The canonical lowercase name of the selected category.
    pub fn select_string(&self, n: Decimal) -> (r: String)
        requires
            n.wf(),
        ensures
            r@ == spec_category_name(spec_select_base(self.spec_locale(), n)),
    {
        String::from_str(self.select(n).as_str())
    }
}

/// Selects the plural category for a quantity in a locale and returns its
/// lowercase name.
pub fn get_plural_category(locale: &str, n: Decimal) -> (r: String)
    requires
        n.wf(),
    ensures
        r@ == spec_category_name(spec_select(locale@, n)),
{
    let rules = PluralRules::new(locale);
    rules.select_string(n)
}

/// The fixed, ordered list of base-language codes with a dedicated rule
/// algorithm.
pub open spec fn spec_is_supported_list(s: Seq<String>) -> bool {
    &&& s.len() == 41
    &&& s[0]@ == "ar"@
    &&& s[1]@ == "az"@
    &&& s[2]@ == "be"@
    &&& s[3]@ == "bn"@
    &&& s[4]@ == "cs"@
    &&& s[5]@ == "cy"@
    &&& s[6]@ == "da"@
    &&& s[7]@ == "de"@
    &&& s[8]@ == "en"@
    &&& s[9]@ == "es"@
    &&& s[10]@ == "fil"@
    &&& s[11]@ == "fr"@
    &&& s[12]@ == "ga"@
    &&& s[13]@ == "he"@
    &&& s[14]@ == "hi"@
    &&& s[15]@ == "is"@
    &&& s[16]@ == "it"@
    &&& s[17]@ == "ja"@
    &&& s[18]@ == "ko"@
    &&& s[19]@ == "lt"@
    &&& s[20]@ == "lv"@
    &&& s[21]@ == "mk"@
    &&& s[22]@ == "mt"@
    &&& s[23]@ == "my"@
    &&& s[24]@ == "nb"@
    &&& s[25]@ == "nl"@
    &&& s[26]@ == "nn"@
    &&& s[27]@ == "no"@
    &&& s[28]@ == "pl"@
    &&& s[29]@ == "pt"@
    &&& s[30]@ == "ro"@
    &&& s[31]@ == "ru"@
    &&& s[32]@ == "sk"@
    &&& s[33]@ == "sl"@
    &&& s[34]@ == "sv"@
    &&& s[35]@ == "th"@
    &&& s[36]@ == "tl"@
    &&& s[37]@ == "tr"@
    &&& s[38]@ == "uk"@
    &&& s[39]@ == "vi"@
    &&& s[40]@ == "zh"@
}

/// The ordered list of base-language codes with a dedicated rule algorithm
/// (codes that merely share the default are not listed).
pub fn get_supported_plural_locales() -> (r: Vec<String>)
    ensures
        spec_is_supported_list(r@),
{
    let mut v: Vec<String> = Vec::new();
    v.push(String::from_str("ar"));
    v.push(String::from_str("az"));
    v.push(String::from_str("be"));
    v.push(String::from_str("bn"));
    v.push(String::from_str("cs"));
    v.push(String::from_str("cy"));
    v.push(String::from_str("da"));
    v.push(String::from_str("de"));
    v.push(String::from_str("en"));
    v.push(String::from_str("es"));
    v.push(String::from_str("fil"));
    v.push(String::from_str("fr"));
    v.push(String::from_str("ga"));
    v.push(String::from_str("he"));
    v.push(String::from_str("hi"));
    v.push(String::from_str("is"));
    v.push(String::from_str("it"));
    v.push(String::from_str("ja"));
    v.push(String::from_str("ko"));
    v.push(String::from_str("lt"));
    v.push(String::from_str("lv"));
    v.push(String::from_str("mk"));
    v.push(String::from_str("mt"));
    v.push(String::from_str("my"));
    v.push(String::from_str("nb"));
    v.push(String::from_str("nl"));
    v.push(String::from_str("nn"));
    v.push(String::from_str("no"));
    v.push(String::from_str("pl"));
    v.push(String::from_str("pt"));
    v.push(String::from_str("ro"));
    v.push(String::from_str("ru"));
    v.push(String::from_str("sk"));
    v.push(String::from_str("sl"));
    v.push(String::from_str("sv"));
    v.push(String::from_str("th"));
    v.push(String::from_str("tl"));
    v.push(String::from_str("tr"));
    v.push(String::from_str("uk"));
    v.push(String::from_str("vi"));
    v.push(String::from_str("zh"));
    v
}

/// Totality: for every locale and every representable quantity, selection
/// yields exactly one of the six closed categories.
pub proof fn lemma_select_total(locale: Seq<char>, d: Decimal)
    ensures
        spec_select(locale, d) is Zero || spec_select(locale, d) is One || spec_select(locale, d)
            is Two || spec_select(locale, d) is Few || spec_select(locale, d) is Many
            || spec_select(locale, d) is Other,
{
}

/// Determinism: selection is a function of the locale and the quantity alone,
/// so two results for the same pair are the same category.
pub proof fn lemma_select_deterministic(
    locale: Seq<char>,
    d: Decimal,
    c1: PluralCategory,
    c2: PluralCategory,
)
    requires
        c1 == spec_select(locale, d),
        c2 == spec_select(locale, d),
    ensures
        c1 == c2,
{
}

/// Sign invariance: a quantity and its negation always select the same
/// category, because the operands are derived from the magnitude alone.
pub proof fn lemma_select_sign_invariant(locale: Seq<char>, d: Decimal)
    ensures
        spec_select(locale, d) == spec_select(locale, d.spec_negated()),
{
    assert(PluralOperands::spec_of(d) == PluralOperands::spec_of(d.spec_negated()));
}

} // verus!
