//! Pluralized translation entries: one template per available category.
//!
//! A catalog entry may carry a template for any subset of the categories;
//! `other` is mandatory and is the fallback whenever the resolved category has
//! no template of its own.

use vstd::prelude::*;

use crate::category::PluralCategory;

verus! {

/// The templates of one pluralized translation entry.
#[derive(Clone, Debug)]
pub struct PluralForms {
    pub zero: Option<String>,
    pub one: Option<String>,
    pub two: Option<String>,
    pub few: Option<String>,
    pub many: Option<String>,
    pub other: String,
}

/// The template a category resolves to: the category's own when present,
/// otherwise the mandatory `other` template.
pub open spec fn spec_form_for(forms: PluralForms, category: PluralCategory) -> Seq<char> {
    match category {
        PluralCategory::Zero => if forms.zero is Some {
            forms.zero->0@
        } else {
            forms.other@
        },
        PluralCategory::One => if forms.one is Some {
            forms.one->0@
        } else {
            forms.other@
        },
        PluralCategory::Two => if forms.two is Some {
            forms.two->0@
        } else {
            forms.other@
        },
        PluralCategory::Few => if forms.few is Some {
            forms.few->0@
        } else {
            forms.other@
        },
        PluralCategory::Many => if forms.many is Some {
            forms.many->0@
        } else {
            forms.other@
        },
        PluralCategory::Other => forms.other@,
    }
}

impl PluralForms {
    /// Picks the template for a resolved category, falling back to `other`
    /// when the category has none.
    pub fn select_form(&self, category: PluralCategory) -> (r: &String)
        ensures
            r@ == spec_form_for(*self, category),
    {
        match category {
            PluralCategory::Zero => match &self.zero {
                Some(s) => s,
                None => &self.other,
            },
            PluralCategory::One => match &self.one {
                Some(s) => s,
                None => &self.other,
            },
            PluralCategory::Two => match &self.two {
                Some(s) => s,
                None => &self.other,
            },
            PluralCategory::Few => match &self.few {
                Some(s) => s,
                None => &self.other,
            },
            PluralCategory::Many => match &self.many {
                Some(s) => s,
                None => &self.other,
            },
            PluralCategory::Other => &self.other,
        }
    }
}

} // verus!
