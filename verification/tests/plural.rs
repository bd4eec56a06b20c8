use polyglot_i18n::Decimal;
use polyglot_i18n::PluralCategory;
use polyglot_i18n::PluralRules;
use polyglot_i18n::get_plural_category;
use polyglot_i18n::get_supported_plural_locales;

fn whole(n: u64) -> Decimal {
    Decimal::from_int(false, n)
}

#[test]
fn test_english_plurals() {
    let rules = PluralRules::new("en");
    assert_eq!(rules.select(Decimal::new(false, 1, 0)), PluralCategory::One);
    assert_eq!(rules.select(Decimal::new(false, 0, 0)), PluralCategory::Other);
    assert_eq!(rules.select(Decimal::new(false, 2, 0)), PluralCategory::Other);
    assert_eq!(rules.select(Decimal::new(false, 1, 500000)), PluralCategory::Other);
}

#[test]
fn test_russian_plurals() {
    let rules = PluralRules::new("ru");
    assert_eq!(rules.select(Decimal::new(false, 1, 0)), PluralCategory::One);
    assert_eq!(rules.select(Decimal::new(false, 2, 0)), PluralCategory::Few);
    assert_eq!(rules.select(Decimal::new(false, 5, 0)), PluralCategory::Many);
    assert_eq!(rules.select(Decimal::new(false, 21, 0)), PluralCategory::One);
    assert_eq!(rules.select(Decimal::new(false, 22, 0)), PluralCategory::Few);
    assert_eq!(rules.select(Decimal::new(false, 25, 0)), PluralCategory::Many);
}

#[test]
fn test_arabic_plurals() {
    let rules = PluralRules::new("ar");
    assert_eq!(rules.select(Decimal::new(false, 0, 0)), PluralCategory::Zero);
    assert_eq!(rules.select(Decimal::new(false, 1, 0)), PluralCategory::One);
    assert_eq!(rules.select(Decimal::new(false, 2, 0)), PluralCategory::Two);
    assert_eq!(rules.select(Decimal::new(false, 3, 0)), PluralCategory::Few);
    assert_eq!(rules.select(Decimal::new(false, 11, 0)), PluralCategory::Many);
}

#[test]
fn test_japanese_plurals() {
    let rules = PluralRules::new("ja");
    assert_eq!(rules.select(Decimal::new(false, 0, 0)), PluralCategory::Other);
    assert_eq!(rules.select(Decimal::new(false, 1, 0)), PluralCategory::Other);
    assert_eq!(rules.select(Decimal::new(false, 100, 0)), PluralCategory::Other);
}

#[test]
fn unsupported_locale_falls_back_to_one_other() {
    let rules = PluralRules::new("xx");
    assert_eq!(rules.select(whole(1)), PluralCategory::One);
    assert_eq!(rules.select(whole(2)), PluralCategory::Other);
}

#[test]
fn repeated_calls_are_deterministic() {
    let rules = PluralRules::new("ru");
    let first = rules.select(whole(21));
    let second = rules.select(whole(21));
    assert_eq!(first, second);
    assert_eq!(first, PluralCategory::One);
}

#[test]
fn sign_never_affects_the_category() {
    for locale in ["en", "ru", "ar", "cy", "ga", "xx"] {
        for n in [0u64, 1, 2, 3, 6, 7, 11, 21, 100] {
            let rules = PluralRules::new(locale);
            let d = Decimal::new(false, n, 0);
            assert_eq!(rules.select(d), rules.select(d.negated()));
        }
        let rules = PluralRules::new(locale);
        let d = Decimal::new(false, 1, 500000);
        assert_eq!(rules.select(d), rules.select(d.negated()));
    }
}

#[test]
fn locale_is_normalized_to_lowercase_base() {
    assert_eq!(PluralRules::new("en-US").get_locale(), "en");
    assert_eq!(PluralRules::new("PT-BR").get_locale(), "pt");
    assert_eq!(PluralRules::new("RU").select(whole(21)), PluralCategory::One);
    assert_eq!(PluralRules::new("de-AT-1996").get_locale(), "de");
}

#[test]
fn category_names_are_lowercase() {
    assert_eq!(PluralCategory::Zero.as_str(), "zero");
    assert_eq!(PluralCategory::One.as_str(), "one");
    assert_eq!(PluralCategory::Two.as_str(), "two");
    assert_eq!(PluralCategory::Few.as_str(), "few");
    assert_eq!(PluralCategory::Many.as_str(), "many");
    assert_eq!(PluralCategory::Other.as_str(), "other");
}

#[test]
fn select_string_returns_category_names() {
    let rules = PluralRules::new("ru");
    assert_eq!(rules.select_string(whole(1)), "one");
    assert_eq!(rules.select_string(whole(2)), "few");
    assert_eq!(rules.select_string(whole(5)), "many");
    assert_eq!(get_plural_category("ar", whole(0)), "zero");
    assert_eq!(get_plural_category("ar", whole(2)), "two");
    assert_eq!(get_plural_category("xx", whole(2)), "other");
}

#[test]
fn french_group_uses_integer_zero_and_one() {
    let rules = PluralRules::new("fr");
    assert_eq!(rules.select(whole(0)), PluralCategory::One);
    assert_eq!(rules.select(whole(1)), PluralCategory::One);
    assert_eq!(rules.select(Decimal::new(false, 1, 500000)), PluralCategory::One);
    assert_eq!(rules.select(whole(2)), PluralCategory::Other);
    assert_eq!(PluralRules::new("it").select(whole(0)), PluralCategory::One);
    assert_eq!(PluralRules::new("pt").select(whole(2)), PluralCategory::Other);
}

#[test]
fn spanish_many_for_whole_millions() {
    let rules = PluralRules::new("es");
    assert_eq!(rules.select(whole(1)), PluralCategory::One);
    assert_eq!(rules.select(whole(1000000)), PluralCategory::Many);
    assert_eq!(rules.select(whole(2000000)), PluralCategory::Many);
    assert_eq!(rules.select(whole(2)), PluralCategory::Other);
    assert_eq!(rules.select(Decimal::new(false, 1, 500000)), PluralCategory::Other);
}

#[test]
fn polish_few_and_many_buckets() {
    let rules = PluralRules::new("pl");
    assert_eq!(rules.select(whole(1)), PluralCategory::One);
    assert_eq!(rules.select(whole(2)), PluralCategory::Few);
    assert_eq!(rules.select(whole(5)), PluralCategory::Many);
    assert_eq!(rules.select(whole(12)), PluralCategory::Many);
    assert_eq!(rules.select(whole(22)), PluralCategory::Few);
    assert_eq!(rules.select(whole(0)), PluralCategory::Many);
    assert_eq!(rules.select(Decimal::new(false, 1, 500000)), PluralCategory::Other);
}

#[test]
fn czech_few_for_small_wholes_many_for_fractions() {
    let rules = PluralRules::new("cs");
    assert_eq!(rules.select(whole(1)), PluralCategory::One);
    assert_eq!(rules.select(whole(2)), PluralCategory::Few);
    assert_eq!(rules.select(whole(4)), PluralCategory::Few);
    assert_eq!(rules.select(whole(5)), PluralCategory::Other);
    assert_eq!(rules.select(Decimal::new(false, 1, 500000)), PluralCategory::Many);
    assert_eq!(PluralRules::new("sk").select(whole(3)), PluralCategory::Few);
}

#[test]
fn hebrew_dual_and_whole_tens() {
    let rules = PluralRules::new("he");
    assert_eq!(rules.select(whole(1)), PluralCategory::One);
    assert_eq!(rules.select(whole(2)), PluralCategory::Two);
    assert_eq!(rules.select(whole(20)), PluralCategory::Many);
    assert_eq!(rules.select(whole(10)), PluralCategory::Other);
    assert_eq!(rules.select(whole(3)), PluralCategory::Other);
    assert_eq!(PluralRules::new("iw").select(whole(2)), PluralCategory::Two);
}

#[test]
fn romanian_broad_few_bucket() {
    let rules = PluralRules::new("ro");
    assert_eq!(rules.select(whole(1)), PluralCategory::One);
    assert_eq!(rules.select(whole(0)), PluralCategory::Few);
    assert_eq!(rules.select(whole(2)), PluralCategory::Few);
    assert_eq!(rules.select(whole(101)), PluralCategory::Few);
    assert_eq!(rules.select(whole(20)), PluralCategory::Other);
    assert_eq!(rules.select(Decimal::new(false, 1, 500000)), PluralCategory::Few);
}

#[test]
fn latvian_zero_and_final_one() {
    let rules = PluralRules::new("lv");
    assert_eq!(rules.select(whole(0)), PluralCategory::Zero);
    assert_eq!(rules.select(whole(1)), PluralCategory::One);
    assert_eq!(rules.select(whole(21)), PluralCategory::One);
    assert_eq!(rules.select(whole(11)), PluralCategory::Other);
    assert_eq!(rules.select(whole(2)), PluralCategory::Other);
}

#[test]
fn lithuanian_fraction_digits_mean_many() {
    let rules = PluralRules::new("lt");
    assert_eq!(rules.select(whole(1)), PluralCategory::One);
    assert_eq!(rules.select(whole(21)), PluralCategory::One);
    assert_eq!(rules.select(whole(2)), PluralCategory::Few);
    assert_eq!(rules.select(whole(11)), PluralCategory::Other);
    assert_eq!(rules.select(whole(10)), PluralCategory::Other);
    assert_eq!(rules.select(Decimal::new(false, 0, 100000)), PluralCategory::Many);
}

#[test]
fn slovenian_last_two_digits() {
    let rules = PluralRules::new("sl");
    assert_eq!(rules.select(whole(1)), PluralCategory::One);
    assert_eq!(rules.select(whole(101)), PluralCategory::One);
    assert_eq!(rules.select(whole(2)), PluralCategory::Two);
    assert_eq!(rules.select(whole(3)), PluralCategory::Few);
    assert_eq!(rules.select(whole(5)), PluralCategory::Other);
    assert_eq!(rules.select(Decimal::new(false, 1, 500000)), PluralCategory::Few);
}

#[test]
fn irish_real_valued_bands() {
    let rules = PluralRules::new("ga");
    assert_eq!(rules.select(whole(1)), PluralCategory::One);
    assert_eq!(rules.select(whole(2)), PluralCategory::Two);
    assert_eq!(rules.select(whole(3)), PluralCategory::Few);
    assert_eq!(rules.select(whole(6)), PluralCategory::Few);
    assert_eq!(rules.select(whole(7)), PluralCategory::Many);
    assert_eq!(rules.select(whole(10)), PluralCategory::Many);
    assert_eq!(rules.select(whole(11)), PluralCategory::Other);
    // The Few and Many bands cover the real intervals [3, 6] and [7, 10].
    assert_eq!(rules.select(Decimal::new(false, 3, 500000)), PluralCategory::Few);
    assert_eq!(rules.select(Decimal::new(false, 5, 999999)), PluralCategory::Few);
    assert_eq!(rules.select(Decimal::new(false, 6, 500000)), PluralCategory::Other);
    assert_eq!(rules.select(Decimal::new(false, 7, 500000)), PluralCategory::Many);
    assert_eq!(rules.select(Decimal::new(false, 10, 1)), PluralCategory::Other);
    assert_eq!(rules.select(Decimal::new(false, 2, 500000)), PluralCategory::Other);
    assert_eq!(rules.select(Decimal::new(false, 1, 500000)), PluralCategory::Other);
}

#[test]
fn welsh_exact_matches() {
    let rules = PluralRules::new("cy");
    assert_eq!(rules.select(whole(0)), PluralCategory::Zero);
    assert_eq!(rules.select(whole(1)), PluralCategory::One);
    assert_eq!(rules.select(whole(2)), PluralCategory::Two);
    assert_eq!(rules.select(whole(3)), PluralCategory::Few);
    assert_eq!(rules.select(whole(6)), PluralCategory::Many);
    assert_eq!(rules.select(whole(4)), PluralCategory::Other);
}

#[test]
fn maltese_last_two_digits() {
    let rules = PluralRules::new("mt");
    assert_eq!(rules.select(whole(1)), PluralCategory::One);
    assert_eq!(rules.select(whole(0)), PluralCategory::Few);
    assert_eq!(rules.select(whole(5)), PluralCategory::Few);
    assert_eq!(rules.select(whole(11)), PluralCategory::Many);
    assert_eq!(rules.select(whole(20)), PluralCategory::Other);
}

#[test]
fn macedonian_final_digit_one() {
    let rules = PluralRules::new("mk");
    assert_eq!(rules.select(whole(1)), PluralCategory::One);
    assert_eq!(rules.select(whole(21)), PluralCategory::One);
    assert_eq!(rules.select(whole(11)), PluralCategory::Other);
    assert_eq!(rules.select(whole(2)), PluralCategory::Other);
    assert_eq!(rules.select(Decimal::new(false, 0, 1)), PluralCategory::One);
}

#[test]
fn icelandic_trimmed_fraction_must_be_empty() {
    let rules = PluralRules::new("is");
    assert_eq!(rules.select(whole(1)), PluralCategory::One);
    assert_eq!(rules.select(whole(21)), PluralCategory::One);
    assert_eq!(rules.select(whole(11)), PluralCategory::Other);
    assert_eq!(rules.select(whole(2)), PluralCategory::Other);
    assert_eq!(rules.select(Decimal::new(false, 1, 500000)), PluralCategory::Other);
}

#[test]
fn filipino_excluded_final_digits() {
    let rules = PluralRules::new("fil");
    assert_eq!(rules.select(whole(1)), PluralCategory::One);
    assert_eq!(rules.select(whole(2)), PluralCategory::One);
    assert_eq!(rules.select(whole(7)), PluralCategory::One);
    assert_eq!(rules.select(whole(4)), PluralCategory::Other);
    assert_eq!(rules.select(whole(14)), PluralCategory::Other);
    assert_eq!(PluralRules::new("tl").select(whole(9)), PluralCategory::Other);
}

#[test]
fn hindi_zero_integer_part_is_one() {
    let rules = PluralRules::new("hi");
    assert_eq!(rules.select(whole(0)), PluralCategory::One);
    assert_eq!(rules.select(whole(1)), PluralCategory::One);
    assert_eq!(rules.select(Decimal::new(false, 0, 500000)), PluralCategory::One);
    assert_eq!(rules.select(whole(2)), PluralCategory::Other);
    assert_eq!(PluralRules::new("bn").select(whole(0)), PluralCategory::One);
}

#[test]
fn turkish_uses_one_other() {
    assert_eq!(PluralRules::new("tr").select(whole(1)), PluralCategory::One);
    assert_eq!(PluralRules::new("az").select(whole(2)), PluralCategory::Other);
}

#[test]
fn supported_locales_list_is_fixed_and_ordered() {
    let locales = get_supported_plural_locales();
    assert_eq!(locales.len(), 41);
    assert_eq!(locales[0], "ar");
    assert_eq!(locales[8], "en");
    assert_eq!(locales[40], "zh");
    assert!(locales.contains(&String::from("ru")));
    assert!(!locales.contains(&String::from("iw")));
}
