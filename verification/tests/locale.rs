use geospoofer::codes::{LOCALE_CODES, LOCALE_COUNT};
use geospoofer::locale::{is_listed, list_locales, split_locale, validate, InvalidLocale};
use geospoofer::text::{same_text, to_ascii_lower};

#[test]
fn validate_accepts_a_listed_code_and_splits_it() {
    assert_eq!(validate("fr-CA"), Ok(("fr".to_string(), "ca".to_string())));
    assert_eq!(validate("en-US"), Ok(("en".to_string(), "us".to_string())));
}

#[test]
fn validate_splits_a_three_letter_language() {
    assert_eq!(validate("byn-ER"), Ok(("byn".to_string(), "er".to_string())));
    assert_eq!(validate("hif-FJ"), Ok(("hif".to_string(), "fj".to_string())));
}

#[test]
fn validate_accepts_codes_of_mixed_case_as_listed() {
    assert_eq!(validate("nn-NO"), Ok(("nn".to_string(), "no".to_string())));
}

#[test]
fn validate_accepts_every_code_of_the_table() {
    for code in LOCALE_CODES.iter() {
        let hyphen = code.find('-').unwrap();
        let language = code[..hyphen].to_string();
        let region = code[hyphen + 1..].to_lowercase();
        assert_eq!(validate(code), Ok((language, region)), "{}", code);
    }
}

#[test]
fn validate_refuses_an_unlisted_code() {
    assert_eq!(validate("xx-ZZ"), Err(InvalidLocale));
}

#[test]
fn validate_refuses_the_empty_string() {
    assert_eq!(validate(""), Err(InvalidLocale));
}

#[test]
fn validate_compares_the_code_as_written() {
    assert_eq!(validate("en-us"), Err(InvalidLocale));
    assert_eq!(validate("EN-US"), Err(InvalidLocale));
    assert_eq!(validate("en_US"), Err(InvalidLocale));
    assert_eq!(validate(" en-US"), Err(InvalidLocale));
    assert_eq!(validate("en-US "), Err(InvalidLocale));
}

#[test]
fn validate_refuses_a_code_without_region() {
    assert_eq!(validate("en"), Err(InvalidLocale));
    assert_eq!(validate("en-"), Err(InvalidLocale));
    assert_eq!(validate("-US"), Err(InvalidLocale));
}

#[test]
fn validate_refuses_a_prefix_and_an_extension_of_a_code() {
    assert_eq!(validate("en-U"), Err(InvalidLocale));
    assert_eq!(validate("en-USA"), Err(InvalidLocale));
    assert_eq!(validate("en-US-x"), Err(InvalidLocale));
}

#[test]
fn is_listed_agrees_with_the_table() {
    assert!(is_listed("aa-ER"));
    assert!(is_listed("zu-ZA"));
    assert!(is_listed("ms-MY"));
    assert!(!is_listed("zz-ZZ"));
    assert!(!is_listed("fr-ca"));
}

#[test]
fn split_locale_splits_at_the_first_hyphen() {
    assert_eq!(split_locale("fr-CA"), ("fr".to_string(), "ca".to_string()));
    assert_eq!(split_locale("a-B-c"), ("a".to_string(), "b-c".to_string()));
    assert_eq!(split_locale("-"), ("".to_string(), "".to_string()));
    assert_eq!(split_locale("pt-"), ("pt".to_string(), "".to_string()));
    assert_eq!(split_locale("-BR"), ("".to_string(), "br".to_string()));
}

#[test]
fn split_locale_defaults_the_region_without_a_hyphen() {
    assert_eq!(split_locale("de"), ("de".to_string(), "us".to_string()));
}

#[test]
fn split_locale_defaults_both_for_the_empty_code() {
    assert_eq!(split_locale(""), ("en".to_string(), "us".to_string()));
}

#[test]
fn split_locale_keeps_the_case_of_the_language() {
    assert_eq!(split_locale("FR-CA"), ("FR".to_string(), "ca".to_string()));
}

#[test]
fn list_locales_is_the_table_in_its_order() {
    let listed = list_locales();
    assert_eq!(listed.len(), 377);
    assert_eq!(listed.len(), LOCALE_COUNT);
    assert_eq!(listed[0], "aa-ER");
    assert_eq!(listed[1], "af-NA");
    assert_eq!(listed[142], "en-US");
    assert_eq!(listed[171], "fr-CA");
    assert_eq!(listed[375], "ms-MY");
    assert_eq!(listed[376], "zu-ZA");
    assert_eq!(listed, LOCALE_CODES.to_vec());
}

#[test]
fn list_locales_holds_each_code_once() {
    let listed = list_locales();
    for (i, code) in listed.iter().enumerate() {
        assert_eq!(listed.iter().filter(|other| *other == code).count(), 1, "{}", code);
        assert_eq!(listed.iter().position(|other| other == code), Some(i));
    }
}

#[test]
fn list_locales_is_the_same_on_every_call() {
    assert_eq!(list_locales(), list_locales());
}

#[test]
fn same_text_compares_character_for_character() {
    assert!(same_text("", ""));
    assert!(same_text("fr-CA", "fr-CA"));
    assert!(!same_text("fr-CA", "fr-CH"));
    assert!(!same_text("fr-CA", "fr-C"));
    assert!(!same_text("fr", "fr-CA"));
    assert!(same_text("Åland", "Åland"));
    assert!(!same_text("Åland", "Aland"));
}

#[test]
fn to_ascii_lower_maps_the_ascii_capitals_only() {
    assert_eq!(to_ascii_lower("US"), "us");
    assert_eq!(to_ascii_lower("AbC-xYz09"), "abc-xyz09");
    assert_eq!(to_ascii_lower("@[`{AZ"), "@[`{az");
    assert_eq!(to_ascii_lower(""), "");
    assert_eq!(to_ascii_lower("ÅB"), "Åb");
}
