use api::shared::vo::{Slug, SlugError};

#[test]
fn slug_new_accepts_letters_digits_dash_and_underscore() {
    let slug = Slug::new("my_slug-2024").unwrap();
    assert_eq!(slug.as_str(), "my_slug-2024");
    assert_eq!(slug, Slug(String::from("my_slug-2024")));
}

#[test]
fn slug_new_refuses_empty_text() {
    assert_eq!(Slug::new(""), Err(SlugError::InvalidSlug));
}

#[test]
fn slug_new_refuses_spaces_and_punctuation() {
    assert_eq!(Slug::new("my slug"), Err(SlugError::InvalidSlug));
    assert_eq!(Slug::new("slug!"), Err(SlugError::InvalidSlug));
    assert_eq!(Slug::new("a/b"), Err(SlugError::InvalidSlug));
}

#[test]
fn slug_new_accepts_non_ascii_letters() {
    assert_eq!(Slug::new("café").unwrap().as_str(), "café");
    assert_eq!(Slug::new("北京").unwrap().as_str(), "北京");
}

#[test]
fn slug_generate_transliterates_and_lowercases() {
    assert_eq!(Slug::generate("Æneid Café").as_str(), "aeneid-cafe");
    assert_eq!(Slug::generate("My Test String!!!1!1").as_str(), "my-test-string-1-1");
    assert_eq!(Slug::generate("  --test_-_cool").as_str(), "test-cool");
}

#[test]
fn slug_generate_of_punctuation_only_is_empty() {
    assert_eq!(Slug::generate("!!!").as_str(), "");
}

#[test]
fn generated_slugs_are_accepted_by_new() {
    for text in ["Hello World", "Ação & Reação", "you & me", "Beyoncé"] {
        let generated = Slug::generate(text);
        assert!(!generated.as_str().is_empty());
        assert_eq!(Slug::new(generated.as_str()), Ok(generated.clone()));
    }
}

#[test]
fn slug_clone_keeps_the_text() {
    let slug = Slug::new("abc").unwrap();
    assert_eq!(slug.clone(), slug);
}

#[test]
fn generated_slug_lowercases_and_joins_words_by_one_dash() {
    assert_eq!(Slug::generate("  --Test_-_Cool!").0, "test-cool");
    assert_eq!(Slug::generate("My Test String!!!1!1").0, "my-test-string-1-1");
    assert_eq!(Slug::generate("Æúű--cool?").0, "aeuu-cool");
    assert_eq!(Slug::generate("!!!").0, "");
}
