//! The closed set of CLDR cardinal plural categories.

use vstd::prelude::*;

verus! {

/// One of the six Unicode CLDR plural categories.  `Other` is the universal
/// fallback: every rule algorithm is total and lands here when no earlier
/// condition matches.
#[derive(Clone, Copy, Debug, PartialEq, Eq, Structural)]
pub enum PluralCategory {
    Zero,
    One,
    Two,
    Few,
    Many,
    Other,
}

/// The canonical lowercase name of a category, as a sequence of characters.
pub open spec fn spec_category_name(c: PluralCategory) -> Seq<char> {
    match c {
        PluralCategory::Zero => "zero"@,
        PluralCategory::One => "one"@,
        PluralCategory::Two => "two"@,
        PluralCategory::Few => "few"@,
        PluralCategory::Many => "many"@,
        PluralCategory::Other => "other"@,
    }
}

impl PluralCategory {
    /// The canonical lowercase name of the category.
    pub fn as_str(&self) -> (r: &'static str)
        ensures
            r@ == spec_category_name(*self),
    {
        match self {
            PluralCategory::Zero => "zero",
            PluralCategory::One => "one",
            PluralCategory::Two => "two",
            PluralCategory::Few => "few",
            PluralCategory::Many => "many",
            PluralCategory::Other => "other",
        }
    }
}

} // verus!
