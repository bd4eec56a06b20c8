//! Relative-time phrasing: "3 days ago", "yesterday", "in 2 weeks".
//!
//! A difference in whole seconds is mapped to the largest time unit whose
//! half-threshold it reaches, the count in that unit is rounded half away
//! from zero, and the count is combined with a pluralized unit noun and a
//! locale-specific direction template.  In the `Auto` numeric mode small
//! second counts become a "just now" phrase and a count of one may become an
//! idiom such as "yesterday".

use vstd::prelude::*;
use vstd::arithmetic::div_mod::lemma_div_is_ordered;
use vstd::arithmetic::div_mod::lemma_div_is_ordered_by_denominator;
use vstd::string::StringExecFns;

use crate::category::PluralCategory;
use crate::locale::normalize_locale;
use crate::locale::spec_normalize;
use crate::operands::Decimal;
use crate::select::PluralRules;
use crate::select::spec_select;
use crate::text::spec_decimal_digits;
use crate::text::str_eq;
use crate::text::u64_to_string;

verus! {

/// The time units a difference in seconds can be expressed in.
#[derive(Clone, Copy, Debug, PartialEq, Eq, Structural)]
pub enum TimeUnit {
    Second,
    Minute,
    Hour,
    Day,
    Week,
    Month,
    Year,
}

/// How a unit noun is written out.
#[derive(Clone, Copy, Debug, PartialEq, Eq, Structural)]
pub enum RelativeTimeStyle {
    Long,
    Short,
    Narrow,
}

/// Whether idiomatic phrases may replace a literal count.
#[derive(Clone, Copy, Debug, PartialEq, Eq, Structural)]
pub enum NumericOption {
    Always,
    Auto,
}

/// The magnitude of an integer.
pub open spec fn spec_abs(v: int) -> int {
    if v >= 0 {
        v
    } else {
        -v
    }
}

/// The fixed second count of each unit (a month is taken as 1/12 of a
/// 365-day year).
pub open spec fn spec_unit_seconds(unit: TimeUnit) -> int {
    match unit {
        TimeUnit::Second => 1,
        TimeUnit::Minute => 60,
        TimeUnit::Hour => 3600,
        TimeUnit::Day => 86400,
        TimeUnit::Week => 604800,
        TimeUnit::Month => 2628000,
        TimeUnit::Year => 31536000,
    }
}

/// The largest unit whose half-threshold the magnitude reaches.
pub open spec fn spec_unit_for(abs: int) -> TimeUnit {
    if abs >= 15768000 {
        TimeUnit::Year
    } else if abs >= 1314000 {
        TimeUnit::Month
    } else if abs >= 302400 {
        TimeUnit::Week
    } else if abs >= 43200 {
        TimeUnit::Day
    } else if abs >= 1800 {
        TimeUnit::Hour
    } else if abs >= 30 {
        TimeUnit::Minute
    } else {
        TimeUnit::Second
    }
}

/// The quotient `a / b` rounded half away from zero (for nonnegative `a` and
/// positive `b`).
pub open spec fn spec_round_div(a: int, b: int) -> int {
    if 2 * (a % b) >= b {
        a / b + 1
    } else {
        a / b
    }
}

/// The locale's "just now" phrase.
pub open spec fn spec_now_string(locale: Seq<char>) -> Seq<char> {
    if locale == "de"@ {
        "gerade eben"@
    } else if locale == "fr"@ {
        "à l'instant"@
    } else if locale == "es"@ {
        "ahora mismo"@
    } else if locale == "ru"@ {
        "только что"@
    } else if locale == "ja"@ {
        "たった今"@
    } else if locale == "zh"@ {
        "刚刚"@
    } else if locale == "ar"@ {
        "الآن"@
    } else {
        "just now"@
    }
}

/// The locale's idiom for a count of one in the given unit and direction,
/// when it has one.
pub open spec fn spec_special_name(locale: Seq<char>, unit: TimeUnit, is_past: bool) -> Option<
    Seq<char>,
> {
    if locale == "en"@ {
        match unit {
            TimeUnit::Day => Some(
                if is_past {
                    "yesterday"@
                } else {
                    "tomorrow"@
                },
            ),
            TimeUnit::Week => Some(
                if is_past {
                    "last week"@
                } else {
                    "next week"@
                },
            ),
            TimeUnit::Month => Some(
                if is_past {
                    "last month"@
                } else {
                    "next month"@
                },
            ),
            TimeUnit::Year => Some(
                if is_past {
                    "last year"@
                } else {
                    "next year"@
                },
            ),
            _ => None,
        }
    } else if locale == "de"@ {
        match unit {
            TimeUnit::Day => Some(
                if is_past {
                    "gestern"@
                } else {
                    "morgen"@
                },
            ),
            _ => None,
        }
    } else if locale == "fr"@ {
        match unit {
            TimeUnit::Day => Some(
                if is_past {
                    "hier"@
                } else {
                    "demain"@
                },
            ),
            _ => None,
        }
    } else if locale == "es"@ {
        match unit {
            TimeUnit::Day => Some(
                if is_past {
                    "ayer"@
                } else {
                    "mañana"@
                },
            ),
            _ => None,
        }
    } else if locale == "ja"@ {
        match unit {
            TimeUnit::Day => Some(
                if is_past {
                    "昨日"@
                } else {
                    "明日"@
                },
            ),
            _ => None,
        }
    } else if locale == "zh"@ {
        match unit {
            TimeUnit::Day => Some(
                if is_past {
                    "昨天"@
                } else {
                    "明天"@
                },
            ),
            _ => None,
        }
    } else {
        None
    }
}

/// The unit noun for a count: English carries dedicated long, short and
/// narrow forms with long forms pluralized by the rule table; every other
/// locale falls back to the English-pattern plural noun.
pub open spec fn spec_unit_name(
    locale: Seq<char>,
    unit: TimeUnit,
    style: RelativeTimeStyle,
    count: int,
) -> Seq<char> {
    let category = spec_select(
        locale,
        Decimal { negative: false, int_part: count as u64, micros: 0 },
    );
    let plural = !(category is One);
    if locale == "en"@ {
        match style {
            RelativeTimeStyle::Long => match unit {
                TimeUnit::Second => if plural {
                    "seconds"@
                } else {
                    "second"@
                },
                TimeUnit::Minute => if plural {
                    "minutes"@
                } else {
                    "minute"@
                },
                TimeUnit::Hour => if plural {
                    "hours"@
                } else {
                    "hour"@
                },
                TimeUnit::Day => if plural {
                    "days"@
                } else {
                    "day"@
                },
                TimeUnit::Week => if plural {
                    "weeks"@
                } else {
                    "week"@
                },
                TimeUnit::Month => if plural {
                    "months"@
                } else {
                    "month"@
                },
                TimeUnit::Year => if plural {
                    "years"@
                } else {
                    "year"@
                },
            },
            RelativeTimeStyle::Short => match unit {
                TimeUnit::Second => "sec"@,
                TimeUnit::Minute => "min"@,
                TimeUnit::Hour => "hr"@,
                TimeUnit::Day => "day"@,
                TimeUnit::Week => "wk"@,
                TimeUnit::Month => "mo"@,
                TimeUnit::Year => "yr"@,
            },
            RelativeTimeStyle::Narrow => match unit {
                TimeUnit::Second => "s"@,
                TimeUnit::Minute => "m"@,
                TimeUnit::Hour => "h"@,
                TimeUnit::Day => "d"@,
                TimeUnit::Week => "w"@,
                TimeUnit::Month => "mo"@,
                TimeUnit::Year => "y"@,
            },
        }
    } else {
        match unit {
            TimeUnit::Second => "seconds"@,
            TimeUnit::Minute => "minutes"@,
            TimeUnit::Hour => "hours"@,
            TimeUnit::Day => "days"@,
            TimeUnit::Week => "weeks"@,
            TimeUnit::Month => "months"@,
            TimeUnit::Year => "years"@,
        }
    }
}

/// The count and unit noun combined with the locale's direction template.
pub open spec fn spec_direction(
    locale: Seq<char>,
    value: int,
    name: Seq<char>,
    is_past: bool,
) -> Seq<char> {
    let digits = spec_decimal_digits(value as nat);
    if locale == "ja"@ || locale == "zh"@ || locale == "ko"@ {
        digits + name + (if is_past {
            "前"@
        } else {
            "後"@
        })
    } else if locale == "de"@ {
        if is_past {
            "vor "@ + digits + " "@ + name
        } else {
            "in "@ + digits + " "@ + name
        }
    } else if locale == "fr"@ {
        if is_past {
            "il y a "@ + digits + " "@ + name
        } else {
            "dans "@ + digits + " "@ + name
        }
    } else if locale == "es"@ {
        if is_past {
            "hace "@ + digits + " "@ + name
        } else {
            "en "@ + digits + " "@ + name
        }
    } else if locale == "ru"@ {
        if is_past {
            digits + " "@ + name + " назад"@
        } else {
            "через "@ + digits + " "@ + name
        }
    } else {
        if is_past {
            digits + " "@ + name + " ago"@
        } else {
            "in "@ + digits + " "@ + name
        }
    }
}

/// The phrase for a signed count already expressed in a unit.
pub open spec fn spec_format_value(
    locale: Seq<char>,
    style: RelativeTimeStyle,
    numeric: NumericOption,
    value: int,
    unit: TimeUnit,
) -> Seq<char> {
    let abs = spec_abs(value);
    let is_past = value < 0;
    if numeric is Auto && unit is Second && abs < 10 {
        spec_now_string(locale)
    } else if numeric is Auto && abs == 1 && spec_special_name(locale, unit, is_past) is Some {
        spec_special_name(locale, unit, is_past)->0
    } else {
        spec_direction(locale, abs, spec_unit_name(locale, unit, style, abs), is_past)
    }
}

/// The phrase for a difference in whole seconds: the unit is chosen by
/// half-unit thresholds and the count is rounded half away from zero, with
/// the sign kept (negative differences lie in the past).
pub open spec fn spec_format(
    locale: Seq<char>,
    style: RelativeTimeStyle,
    numeric: NumericOption,
    diff: int,
) -> Seq<char> {
    let abs = spec_abs(diff);
    let unit = spec_unit_for(abs);
    let value = if unit is Second {
        diff
    } else if diff < 0 {
        -spec_round_div(abs, spec_unit_seconds(unit))
    } else {
        spec_round_div(abs, spec_unit_seconds(unit))
    };
    spec_format_value(locale, style, numeric, value, unit)
}

/// The magnitude of a signed 64-bit count, without overflow on the extreme
/// value.
fn abs_i64(v: i64) -> (r: u64)
    ensures
        r as int == spec_abs(v as int),
{
    if v >= 0 {
        v as u64
    } else {
        ((-(v + 1)) as u64) + 1
    }
}

/// The fixed second count of each unit.
fn unit_seconds(unit: TimeUnit) -> (r: u64)
    ensures
        r as int == spec_unit_seconds(unit),
{
    match unit {
        TimeUnit::Second => 1,
        TimeUnit::Minute => 60,
        TimeUnit::Hour => 3600,
        TimeUnit::Day => 86400,
        TimeUnit::Week => 604800,
        TimeUnit::Month => 2628000,
        TimeUnit::Year => 31536000,
    }
}

/// The largest unit whose half-threshold the magnitude reaches.
fn unit_for_abs(abs: u64) -> (r: TimeUnit)
    ensures
        r == spec_unit_for(abs as int),
{
    if abs >= 15768000 {
        TimeUnit::Year
    } else if abs >= 1314000 {
        TimeUnit::Month
    } else if abs >= 302400 {
        TimeUnit::Week
    } else if abs >= 43200 {
        TimeUnit::Day
    } else if abs >= 1800 {
        TimeUnit::Hour
    } else if abs >= 30 {
        TimeUnit::Minute
    } else {
        TimeUnit::Second
    }
}

/// Division rounded half away from zero.
fn round_div(a: u64, b: u64) -> (r: u64)
    requires
        b >= 1,
    ensures
        r as int == spec_round_div(a as int, b as int),
        r as int <= a as int / b as int + 1,
{
    let q = a / b;
    let rem = a % b;
    if rem >= b - rem {
        proof {
            lemma_div_is_ordered_by_denominator(a as int, 2, b as int);
        }
        q + 1
    } else {
        q
    }
}

/// A relative-time formatter bound to one normalized locale, a style, and a
/// numeric mode.
pub struct RelativeTimeFormat {
    locale: String,
    style: RelativeTimeStyle,
    numeric: NumericOption,
}

impl RelativeTimeFormat {
    /// The normalized base-language code this formatter uses.
    pub closed spec fn spec_locale(&self) -> Seq<char> {
        self.locale@
    }

    /// The style unit nouns are written in.
    pub closed spec fn spec_style(&self) -> RelativeTimeStyle {
        self.style
    }

    /// Whether idiomatic phrases may replace a literal count.
    pub closed spec fn spec_numeric(&self) -> NumericOption {
        self.numeric
    }

    /// Creates a formatter for a locale identifier with the long style and
    /// the `Auto` numeric mode.
    pub fn new(locale: &str) -> (r: RelativeTimeFormat)
        ensures
            r.spec_locale() == spec_normalize(locale@),
            r.spec_style() == RelativeTimeStyle::Long,
            r.spec_numeric() == NumericOption::Auto,
    {
        RelativeTimeFormat {
            locale: normalize_locale(locale),
            style: RelativeTimeStyle::Long,
            numeric: NumericOption::Auto,
        }
    }

    /// Changes the style.
    pub fn set_style(&mut self, style: RelativeTimeStyle)
        ensures
            final(self).spec_style() == style,
            final(self).spec_locale() == old(self).spec_locale(),
            final(self).spec_numeric() == old(self).spec_numeric(),
    {
        self.style = style;
    }

    /// Changes the numeric mode.
    pub fn set_numeric(&mut self, numeric: NumericOption)
        ensures
            final(self).spec_numeric() == numeric,
            final(self).spec_locale() == old(self).spec_locale(),
            final(self).spec_style() == old(self).spec_style(),
    {
        self.numeric = numeric;
    }

    /// Phrases a difference in whole seconds (negative values lie in the
    /// past).
    pub fn format(&self, diff_seconds: i64) -> (r: String)
        ensures
            r@ == spec_format(
                self.spec_locale(),
                self.spec_style(),
                self.spec_numeric(),
                diff_seconds as int,
            ),
    {
        let abs = abs_i64(diff_seconds);
        let unit = unit_for_abs(abs);
        let value: i64 = if unit == TimeUnit::Second {
            diff_seconds
        } else {
            let us = unit_seconds(unit);
            let rounded = round_div(abs, us);
            proof {
                lemma_div_is_ordered_by_denominator(abs as int, 60, us as int);
                lemma_div_is_ordered(abs as int, u64::MAX as int, 60);
            }
            if diff_seconds < 0 {
                -(rounded as i64)
            } else {
                rounded as i64
            }
        };
        self.format_value(value, unit)
    }

    /// Phrases a signed count already expressed in a unit.
    pub fn format_unit(&self, value: i64, unit: TimeUnit) -> (r: String)
        ensures
            r@ == spec_format_value(
                self.spec_locale(),
                self.spec_style(),
                self.spec_numeric(),
                value as int,
                unit,
            ),
    {
        self.format_value(value, unit)
    }

    /// Applies the `Auto`-mode special cases, then the generic phrasing.
    fn format_value(&self, value: i64, unit: TimeUnit) -> (r: String)
        ensures
            r@ == spec_format_value(
                self.spec_locale(),
                self.spec_style(),
                self.spec_numeric(),
                value as int,
                unit,
            ),
    {
        let abs = abs_i64(value);
        let is_past = value < 0;
        if self.numeric == NumericOption::Auto {
            if abs < 10 && unit == TimeUnit::Second {
                return self.get_now_string();
            }
            if abs == 1 {
                match self.get_special_name(unit, is_past) {
                    Some(s) => {
                        return s;
                    },
                    None => {},
                }
            }
        }
        let name = self.get_unit_name(unit, abs);
        self.format_with_direction(abs, name.as_str(), is_past)
    }

    /// The locale's "just now" phrase.
    fn get_now_string(&self) -> (r: String)
        ensures
            r@ == spec_now_string(self.spec_locale()),
    {
        let loc = self.locale.as_str();
        if str_eq(loc, "de") {
            String::from_str("gerade eben")
        } else if str_eq(loc, "fr") {
            String::from_str("à l'instant")
        } else if str_eq(loc, "es") {
            String::from_str("ahora mismo")
        } else if str_eq(loc, "ru") {
            String::from_str("только что")
        } else if str_eq(loc, "ja") {
            String::from_str("たった今")
        } else if str_eq(loc, "zh") {
            String::from_str("刚刚")
        } else if str_eq(loc, "ar") {
            String::from_str("الآن")
        } else {
            String::from_str("just now")
        }
    }

    /// The locale's idiom for a count of one, when it has one.
    fn get_special_name(&self, unit: TimeUnit, is_past: bool) -> (r: Option<String>)
        ensures
            (r is Some) == (spec_special_name(self.spec_locale(), unit, is_past) is Some),
            r is Some ==> (r->0)@ == spec_special_name(self.spec_locale(), unit, is_past)->0,
    {
        let loc = self.locale.as_str();
        if str_eq(loc, "en") {
            match unit {
                TimeUnit::Day => Some(
                    if is_past {
                        String::from_str("yesterday")
                    } else {
                        String::from_str("tomorrow")
                    },
                ),
                TimeUnit::Week => Some(
                    if is_past {
                        String::from_str("last week")
                    } else {
                        String::from_str("next week")
                    },
                ),
                TimeUnit::Month => Some(
                    if is_past {
                        String::from_str("last month")
                    } else {
                        String::from_str("next month")
                    },
                ),
                TimeUnit::Year => Some(
                    if is_past {
                        String::from_str("last year")
                    } else {
                        String::from_str("next year")
                    },
                ),
                _ => None,
            }
        } else if str_eq(loc, "de") {
            match unit {
                TimeUnit::Day => Some(
                    if is_past {
                        String::from_str("gestern")
                    } else {
                        String::from_str("morgen")
                    },
                ),
                _ => None,
            }
        } else if str_eq(loc, "fr") {
            match unit {
                TimeUnit::Day => Some(
                    if is_past {
                        String::from_str("hier")
                    } else {
                        String::from_str("demain")
                    },
                ),
                _ => None,
            }
        } else if str_eq(loc, "es") {
            match unit {
                TimeUnit::Day => Some(
                    if is_past {
                        String::from_str("ayer")
                    } else {
                        String::from_str("mañana")
                    },
                ),
                _ => None,
            }
        } else if str_eq(loc, "ja") {
            match unit {
                TimeUnit::Day => Some(
                    if is_past {
                        String::from_str("昨日")
                    } else {
                        String::from_str("明日")
                    },
                ),
                _ => None,
            }
        } else if str_eq(loc, "zh") {
            match unit {
                TimeUnit::Day => Some(
                    if is_past {
                        String::from_str("昨天")
                    } else {
                        String::from_str("明天")
                    },
                ),
                _ => None,
            }
        } else {
            None
        }
    }

    /// The unit noun for a count, pluralized through the rule table.
    fn get_unit_name(&self, unit: TimeUnit, count: u64) -> (r: String)
        ensures
            r@ == spec_unit_name(self.spec_locale(), unit, self.spec_style(), count as int),
    {
        let rules = PluralRules::new(self.locale.as_str());
        let category = rules.select(Decimal::from_int(false, count));
        let plural = category != PluralCategory::One;
        let loc = self.locale.as_str();
        if str_eq(loc, "en") {
            match self.style {
                RelativeTimeStyle::Long => match unit {
                    TimeUnit::Second => if plural {
                        String::from_str("seconds")
                    } else {
                        String::from_str("second")
                    },
                    TimeUnit::Minute => if plural {
                        String::from_str("minutes")
                    } else {
                        String::from_str("minute")
                    },
                    TimeUnit::Hour => if plural {
                        String::from_str("hours")
                    } else {
                        String::from_str("hour")
                    },
                    TimeUnit::Day => if plural {
                        String::from_str("days")
                    } else {
                        String::from_str("day")
                    },
                    TimeUnit::Week => if plural {
                        String::from_str("weeks")
                    } else {
                        String::from_str("week")
                    },
                    TimeUnit::Month => if plural {
                        String::from_str("months")
                    } else {
                        String::from_str("month")
                    },
                    TimeUnit::Year => if plural {
                        String::from_str("years")
                    } else {
                        String::from_str("year")
                    },
                },
                RelativeTimeStyle::Short => match unit {
                    TimeUnit::Second => String::from_str("sec"),
                    TimeUnit::Minute => String::from_str("min"),
                    TimeUnit::Hour => String::from_str("hr"),
                    TimeUnit::Day => String::from_str("day"),
                    TimeUnit::Week => String::from_str("wk"),
                    TimeUnit::Month => String::from_str("mo"),
                    TimeUnit::Year => String::from_str("yr"),
                },
                RelativeTimeStyle::Narrow => match unit {
                    TimeUnit::Second => String::from_str("s"),
                    TimeUnit::Minute => String::from_str("m"),
                    TimeUnit::Hour => String::from_str("h"),
                    TimeUnit::Day => String::from_str("d"),
                    TimeUnit::Week => String::from_str("w"),
                    TimeUnit::Month => String::from_str("mo"),
                    TimeUnit::Year => String::from_str("y"),
                },
            }
        } else {
            match unit {
                TimeUnit::Second => String::from_str("seconds"),
                TimeUnit::Minute => String::from_str("minutes"),
                TimeUnit::Hour => String::from_str("hours"),
                TimeUnit::Day => String::from_str("days"),
                TimeUnit::Week => String::from_str("weeks"),
                TimeUnit::Month => String::from_str("months"),
                TimeUnit::Year => String::from_str("years"),
            }
        }
    }

    /// Combines the count and unit noun with the locale's direction template.
    fn format_with_direction(&self, value: u64, unit_name: &str, is_past: bool) -> (r: String)
        ensures
            r@ == spec_direction(self.spec_locale(), value as int, unit_name@, is_past),
    {
        let num = u64_to_string(value);
        let loc = self.locale.as_str();
        if str_eq(loc, "ja") || str_eq(loc, "zh") || str_eq(loc, "ko") {
            let mut s = num;
            s.append(unit_name);
            if is_past {
                s.append("前");
            } else {
                s.append("後");
            }
            s
        } else if str_eq(loc, "de") {
            let mut s = if is_past {
                String::from_str("vor ")
            } else {
                String::from_str("in ")
            };
            s.append(num.as_str());
            s.append(" ");
            s.append(unit_name);
            s
        } else if str_eq(loc, "fr") {
            let mut s = if is_past {
                String::from_str("il y a ")
            } else {
                String::from_str("dans ")
            };
            s.append(num.as_str());
            s.append(" ");
            s.append(unit_name);
            s
        } else if str_eq(loc, "es") {
            let mut s = if is_past {
                String::from_str("hace ")
            } else {
                String::from_str("en ")
            };
            s.append(num.as_str());
            s.append(" ");
            s.append(unit_name);
            s
        } else if str_eq(loc, "ru") {
            if is_past {
                let mut s = num;
                s.append(" ");
                s.append(unit_name);
                s.append(" назад");
                s
            } else {
                let mut s = String::from_str("через ");
                s.append(num.as_str());
                s.append(" ");
                s.append(unit_name);
                s
            }
        } else {
            if is_past {
                let mut s = num;
                s.append(" ");
                s.append(unit_name);
                s.append(" ago");
                s
            } else {
                let mut s = String::from_str("in ");
                s.append(num.as_str());
                s.append(" ");
                s.append(unit_name);
                s
            }
        }
    }
}

/// Phrases a difference in whole seconds for a locale, with the long style
/// and the `Auto` numeric mode.
pub fn format_relative_time(locale: &str, diff_seconds: i64) -> (r: String)
    ensures
        r@ == spec_format(
            spec_normalize(locale@),
            RelativeTimeStyle::Long,
            NumericOption::Auto,
            diff_seconds as int,
        ),
{
    let formatter = RelativeTimeFormat::new(locale);
    formatter.format(diff_seconds)
}

} // verus!
