//! CLDR cardinal plural rules and relative-time phrasing.
//!
//! The crate derives the CLDR numeric operands (n, i, v, w, f, t) from a
//! fixed-point decimal value, maps a normalized base-language code to one of
//! the per-language rule algorithms, and returns one of the six plural
//! categories.  A relative-time formatter consumes the selector to phrase
//! expressions such as "2 days ago".

pub mod category;
pub mod forms;
pub mod locale;
pub mod operands;
pub mod relative;
pub mod rules;
pub mod select;
pub mod text;

pub use category::PluralCategory;
pub use forms::PluralForms;
pub use operands::Decimal;
pub use operands::PluralOperands;
pub use relative::NumericOption;
pub use relative::RelativeTimeFormat;
pub use relative::RelativeTimeStyle;
pub use relative::TimeUnit;
pub use relative::format_relative_time;
pub use select::PluralRules;
pub use select::get_plural_category;
pub use select::get_supported_plural_locales;
