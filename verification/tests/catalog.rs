use anon_csv::catalog::{join, truth_text};
use anon_csv::faker::FakerKind;
use anon_csv::kind::{AddressKind, CompanyKind, InternetKind, LoremKind, NameKind, NumberKind};

fn draws(kind: FakerKind) -> Vec<String> {
    (0..60).map(|_| kind.fake()).collect()
}

fn is_digits(s: &str) -> bool {
    !s.is_empty() && s.chars().all(|c| c.is_ascii_digit())
}

#[test]
fn join_puts_separator_between_parts() {
    let parts = vec!["a".to_string(), "".to_string(), "bc".to_string()];
    assert_eq!(join(&parts, ", "), "a, , bc");
    assert_eq!(join(&parts, ""), "abc");
    assert_eq!(join(&vec!["x".to_string()], "-"), "x");
    assert_eq!(join(&vec![], "-"), "");
    assert_eq!(join(&vec!["".to_string(), "".to_string()], "+"), "+");
}

#[test]
fn truth_text_names_the_value() {
    assert_eq!(truth_text(true), "true");
    assert_eq!(truth_text(false), "false");
}

#[test]
fn boolean_is_true_or_false() {
    let mut seen_true = false;
    let mut seen_false = false;
    for _ in 0..200 {
        let v = FakerKind::Boolean.fake();
        assert!(v == "true" || v == "false");
        seen_true |= v == "true";
        seen_false |= v == "false";
    }
    assert!(seen_true && seen_false);
}

#[test]
fn every_kind_gives_a_text_that_is_not_empty() {
    for group in FakerKind::combinations() {
        for kind in group {
            for v in draws(kind) {
                assert!(!v.is_empty(), "{:?}", kind);
            }
        }
    }
}

#[test]
fn digit_is_one_decimal_digit() {
    for v in draws(FakerKind::Number(NumberKind::Digit)) {
        assert_eq!(v.len(), 1);
        assert!(is_digits(&v));
    }
}

#[test]
fn telephone_numbers_have_the_length_of_their_patterns() {
    for v in draws(FakerKind::Number(NumberKind::CellNumber)) {
        let n = v.chars().count();
        assert!(n == 12 || n == 14, "{:?}", v);
    }
    for v in draws(FakerKind::Number(NumberKind::PhoneNumber)) {
        let n = v.chars().count();
        assert!((12..=21).contains(&n), "{:?}", v);
    }
}

#[test]
fn word_has_no_space() {
    for v in draws(FakerKind::Lorem(LoremKind::Word)) {
        assert!(!v.contains(' '));
    }
}

#[test]
fn words_are_at_most_ten() {
    for v in draws(FakerKind::Lorem(LoremKind::Words)) {
        let words: Vec<&str> = v.split(' ').collect();
        assert!(!words.is_empty() && words.len() <= 10, "{:?}", v);
        assert!(words.iter().all(|w| !w.is_empty()));
    }
}

#[test]
fn sentence_and_paragraph_close_with_a_full_stop() {
    for v in draws(FakerKind::Lorem(LoremKind::Sentence)) {
        assert!(v.ends_with('.'), "{:?}", v);
    }
    for v in draws(FakerKind::Lorem(LoremKind::Paragraph)) {
        assert!(v.ends_with('.'), "{:?}", v);
    }
}

#[test]
fn sentences_are_five_lines() {
    for v in draws(FakerKind::Lorem(LoremKind::Sentences)) {
        let lines: Vec<&str> = v.split('\n').collect();
        assert_eq!(lines.len(), 5, "{:?}", v);
        assert!(lines.iter().all(|l| l.ends_with('.')));
    }
}

#[test]
fn paragraphs_are_joined_by_newlines() {
    for v in draws(FakerKind::Lorem(LoremKind::Paragraphs)) {
        assert!(v.split('\n').count() >= 5);
        assert!(v.ends_with('.'));
    }
}

#[test]
fn suffixes_and_prefixes_come_from_their_tables() {
    let company = ["Inc", "and Sons", "LLC", "Group"];
    for v in draws(FakerKind::Company(CompanyKind::Suffix)) {
        assert!(company.contains(&v.as_str()), "{:?}", v);
    }
    let suffixes = ["Jr.", "Sr.", "I", "II", "III", "IV", "V", "MD", "DDS", "PhD", "DVM"];
    for v in draws(FakerKind::Name(NameKind::Suffix)) {
        assert!(suffixes.contains(&v.as_str()), "{:?}", v);
    }
    let prefixes = ["Mr.", "Mrs.", "Ms.", "Miss", "Dr."];
    for v in draws(FakerKind::Name(NameKind::Prefix)) {
        assert!(prefixes.contains(&v.as_str()), "{:?}", v);
    }
    let cities = ["North", "East", "West", "South", "New", "Lake", "Port"];
    for v in draws(FakerKind::Address(AddressKind::CityPrefix)) {
        assert!(cities.contains(&v.as_str()), "{:?}", v);
    }
    let providers = ["gmail.com", "yahoo.com", "hotmail.com"];
    for v in draws(FakerKind::Internet(InternetKind::FreeEmailProvider)) {
        assert!(providers.contains(&v.as_str()), "{:?}", v);
    }
    let domains = ["com", "biz", "info", "name", "net", "org", "io", "co"];
    for v in draws(FakerKind::Internet(InternetKind::DomainSuffix)) {
        assert!(domains.contains(&v.as_str()), "{:?}", v);
    }
}

#[test]
fn composed_texts_hold_their_separator() {
    let spaced = [
        FakerKind::Company(CompanyKind::CatchPhrase),
        FakerKind::Company(CompanyKind::Bs),
        FakerKind::Name(NameKind::Name),
        FakerKind::Name(NameKind::NameWithMiddle),
        FakerKind::Name(NameKind::Title),
        FakerKind::Address(AddressKind::StreetName),
        FakerKind::Address(AddressKind::StreetAddress),
        FakerKind::Address(AddressKind::SecondaryAddress),
    ];
    for kind in spaced {
        for v in draws(kind) {
            assert!(v.contains(' '), "{:?} {:?}", kind, v);
        }
    }
    for v in draws(FakerKind::Company(CompanyKind::Name)) {
        assert!(v.contains(' ') || v.contains('-'), "{:?}", v);
    }
    for v in draws(FakerKind::Internet(InternetKind::Ip)) {
        assert!(v.contains('.'));
    }
    for v in draws(FakerKind::Internet(InternetKind::Ipv4)) {
        assert!(v.contains('.'));
    }
    for v in draws(FakerKind::Internet(InternetKind::Ipv6)) {
        assert!(v.contains(':'));
    }
}

#[test]
fn emails_hold_an_at_sign() {
    for v in draws(FakerKind::Internet(InternetKind::SafeEmail)) {
        assert!(v.contains('@'));
    }
    for v in draws(FakerKind::Internet(InternetKind::FreeEmail)) {
        assert!(v.contains('@'));
    }
}

#[test]
fn password_has_four_to_six_characters() {
    for v in draws(FakerKind::Internet(InternetKind::Password)) {
        let n = v.chars().count();
        assert!((4..=6).contains(&n), "{:?}", v);
    }
}

#[test]
fn color_is_a_hash_and_six_digits() {
    for v in draws(FakerKind::Internet(InternetKind::Color)) {
        assert_eq!(v.chars().count(), 7, "{:?}", v);
        assert!(v.starts_with('#'));
    }
}

#[test]
fn address_numbers_are_digits() {
    for v in draws(FakerKind::Address(AddressKind::Zip)) {
        assert!((3..=5).contains(&v.len()) && is_digits(&v), "{:?}", v);
    }
    for v in draws(FakerKind::Address(AddressKind::BuildingNumber)) {
        assert!((3..=5).contains(&v.len()) && is_digits(&v), "{:?}", v);
    }
    let mut long = false;
    for v in draws(FakerKind::Address(AddressKind::Postcode)) {
        if v.len() == 5 {
            assert!(is_digits(&v), "{:?}", v);
        } else {
            long = true;
            assert_eq!(v.len(), 10, "{:?}", v);
            assert!(is_digits(&v[..5]) && &v[5..6] == "-" && is_digits(&v[6..]), "{:?}", v);
        }
    }
    assert!(long);
    for v in draws(FakerKind::Address(AddressKind::StateAbbr)) {
        assert_eq!(v.chars().count(), 2);
    }
    for v in draws(FakerKind::Address(AddressKind::SecondaryAddress)) {
        let n = v.chars().count();
        assert!(n == 8 || n == 9, "{:?}", v);
    }
}
