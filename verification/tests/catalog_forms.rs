use polyglot_i18n::PluralCategory;
use polyglot_i18n::PluralForms;

fn forms_with_one() -> PluralForms {
    PluralForms {
        zero: None,
        one: Some(String::from("%d item")),
        two: None,
        few: None,
        many: None,
        other: String::from("%d items"),
    }
}

#[test]
fn select_form_prefers_the_resolved_category() {
    let forms = forms_with_one();
    assert_eq!(forms.select_form(PluralCategory::One), "%d item");
    assert_eq!(forms.select_form(PluralCategory::Other), "%d items");
}

#[test]
fn select_form_falls_back_to_other() {
    let forms = forms_with_one();
    assert_eq!(forms.select_form(PluralCategory::Zero), "%d items");
    assert_eq!(forms.select_form(PluralCategory::Two), "%d items");
    assert_eq!(forms.select_form(PluralCategory::Few), "%d items");
    assert_eq!(forms.select_form(PluralCategory::Many), "%d items");
}

#[test]
fn select_form_with_all_categories_present() {
    let forms = PluralForms {
        zero: Some(String::from("none")),
        one: Some(String::from("one")),
        two: Some(String::from("two")),
        few: Some(String::from("few")),
        many: Some(String::from("many")),
        other: String::from("other"),
    };
    assert_eq!(forms.select_form(PluralCategory::Zero), "none");
    assert_eq!(forms.select_form(PluralCategory::One), "one");
    assert_eq!(forms.select_form(PluralCategory::Two), "two");
    assert_eq!(forms.select_form(PluralCategory::Few), "few");
    assert_eq!(forms.select_form(PluralCategory::Many), "many");
    assert_eq!(forms.select_form(PluralCategory::Other), "other");
}
