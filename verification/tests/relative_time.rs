use polyglot_i18n::Decimal;
use polyglot_i18n::NumericOption;
use polyglot_i18n::PluralOperands;
use polyglot_i18n::RelativeTimeFormat;
use polyglot_i18n::RelativeTimeStyle;
use polyglot_i18n::TimeUnit;
use polyglot_i18n::format_relative_time;
use polyglot_i18n::operands::extract_operands;

#[test]
fn just_now_for_small_second_counts() {
    assert_eq!(format_relative_time("en", -5), "just now");
    assert_eq!(format_relative_time("en", 0), "just now");
    assert_eq!(format_relative_time("en", 9), "just now");
    assert_eq!(format_relative_time("de", -3), "gerade eben");
    assert_eq!(format_relative_time("ja", 2), "たった今");
}

#[test]
fn yesterday_and_tomorrow_idioms() {
    assert_eq!(format_relative_time("en", -86400), "yesterday");
    assert_eq!(format_relative_time("en", 93600), "tomorrow");
    assert_eq!(format_relative_time("de", -86400), "gestern");
    assert_eq!(format_relative_time("fr", 86400), "demain");
    assert_eq!(format_relative_time("es", -86400), "ayer");
    assert_eq!(format_relative_time("zh", -86400), "昨天");
}

#[test]
fn two_days_ago_generic_phrasing() {
    assert_eq!(format_relative_time("en", -172800), "2 days ago");
    assert_eq!(format_relative_time("en", 172800), "in 2 days");
}

#[test]
fn unit_selection_by_half_thresholds() {
    assert_eq!(format_relative_time("en", -29), "29 seconds ago");
    assert_eq!(format_relative_time("en", -30), "1 minute ago");
    assert_eq!(format_relative_time("en", -300), "5 minutes ago");
    assert_eq!(format_relative_time("en", 7200), "in 2 hours");
    assert_eq!(format_relative_time("en", -1209600), "2 weeks ago");
    assert_eq!(format_relative_time("en", -5256000), "2 months ago");
    assert_eq!(format_relative_time("en", -63072000), "2 years ago");
}

#[test]
fn counts_round_half_away_from_zero() {
    assert_eq!(format_relative_time("en", 129600), "in 2 days");
    assert_eq!(format_relative_time("en", -129599), "yesterday");
}

#[test]
fn always_mode_keeps_literal_counts() {
    let mut formatter = RelativeTimeFormat::new("en");
    formatter.set_numeric(NumericOption::Always);
    assert_eq!(formatter.format(-86400), "1 day ago");
    assert_eq!(formatter.format(-5), "5 seconds ago");
    assert_eq!(formatter.format(3), "in 3 seconds");
}

#[test]
fn short_and_narrow_styles() {
    let mut formatter = RelativeTimeFormat::new("en");
    formatter.set_style(RelativeTimeStyle::Short);
    assert_eq!(formatter.format(-172800), "2 day ago");
    formatter.set_style(RelativeTimeStyle::Narrow);
    assert_eq!(formatter.format(-172800), "2 d ago");
}

#[test]
fn direction_templates_by_locale() {
    assert_eq!(format_relative_time("de", -172800), "vor 2 days");
    assert_eq!(format_relative_time("de", 172800), "in 2 days");
    assert_eq!(format_relative_time("fr", -172800), "il y a 2 days");
    assert_eq!(format_relative_time("fr", 172800), "dans 2 days");
    assert_eq!(format_relative_time("es", -172800), "hace 2 days");
    assert_eq!(format_relative_time("ru", -300), "5 minutes назад");
    assert_eq!(format_relative_time("ru", 300), "через 5 minutes");
    assert_eq!(format_relative_time("ja", -172800), "2days前");
    assert_eq!(format_relative_time("ko", 172800), "2days後");
}

#[test]
fn format_unit_with_explicit_unit() {
    let formatter = RelativeTimeFormat::new("en");
    assert_eq!(formatter.format_unit(3, TimeUnit::Day), "in 3 days");
    assert_eq!(formatter.format_unit(-1, TimeUnit::Week), "last week");
    assert_eq!(formatter.format_unit(-7, TimeUnit::Hour), "7 hours ago");
}

#[test]
fn operand_extraction_exact_values() {
    let op = extract_operands(Decimal::new(false, 1, 500000));
    assert_eq!(
        op,
        PluralOperands { i: 1, v: 6, w: 1, f: 500000, t: 5 }
    );
    let op = extract_operands(Decimal::new(false, 0, 250000));
    assert_eq!(
        op,
        PluralOperands { i: 0, v: 6, w: 2, f: 250000, t: 25 }
    );
    let op = extract_operands(Decimal::new(true, 7, 0));
    assert_eq!(
        op,
        PluralOperands { i: 7, v: 0, w: 0, f: 0, t: 0 }
    );
    let op = extract_operands(Decimal::new(false, 3, 1));
    assert_eq!(
        op,
        PluralOperands { i: 3, v: 6, w: 6, f: 1, t: 1 }
    );
}
