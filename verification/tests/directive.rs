use anon_csv::directive::Spec;
use anon_csv::error::SpecError;
use anon_csv::faker::{FakerKind, Major};
use anon_csv::kind::{AddressKind, CompanyKind, InternetKind, LoremKind, NameKind, NumberKind};
use anon_csv::minor::{kinds, lookup, named, Minor};
use anon_csv::text::{find_char, matches_name, parse_column, to_chars};

#[test]
fn parses_column_and_kind() {
    let spec = Spec::from_str("1:internet.safe_email").unwrap();
    assert_eq!(spec.column, 1);
    assert_eq!(spec.kind, FakerKind::Internet(InternetKind::SafeEmail));
}

#[test]
fn parses_large_column() {
    let spec = Spec::from_str("1234567:name.first_name").unwrap();
    assert_eq!(spec, Spec { column: 1234567, kind: FakerKind::Name(NameKind::FirstName) });
}

#[test]
fn column_may_have_leading_zeros_and_plus() {
    assert_eq!(Spec::from_str("007:number.digit").unwrap().column, 7);
    assert_eq!(Spec::from_str("+3:number.digit").unwrap().column, 3);
}

#[test]
fn case_variation_parses_identically() {
    let lower = Spec::from_str("0:name.first_name").unwrap();
    let upper = Spec::from_str("0:NAME.FIRST_NAME").unwrap();
    let mixed = Spec::from_str("0:Name.First_Name").unwrap();
    assert_eq!(lower, upper);
    assert_eq!(lower, mixed);
    assert_eq!(lower.kind, FakerKind::Name(NameKind::FirstName));
}

#[test]
fn compact_spelling_is_accepted() {
    assert_eq!(
        FakerKind::from_str("internet.safeemail"),
        Ok(FakerKind::Internet(InternetKind::SafeEmail))
    );
    assert_eq!(
        FakerKind::from_str("internet.SafeEmail"),
        Ok(FakerKind::Internet(InternetKind::SafeEmail))
    );
    assert_eq!(
        FakerKind::from_str("address.zip"),
        Ok(FakerKind::Address(AddressKind::Zip))
    );
    assert_eq!(
        FakerKind::from_str("address.postcode"),
        Ok(FakerKind::Address(AddressKind::Postcode))
    );
    assert_eq!(
        FakerKind::from_str("Company.CatchPhrase"),
        Ok(FakerKind::Company(CompanyKind::CatchPhrase))
    );
}

#[test]
fn other_spellings_are_refused() {
    assert_eq!(
        FakerKind::from_str("internet.safe-email"),
        Err(SpecError::UnknownMinor("internet".to_string(), "safe-email".to_string()))
    );
    assert_eq!(
        FakerKind::from_str("internet.safe__email"),
        Err(SpecError::UnknownMinor("internet".to_string(), "safe__email".to_string()))
    );
    assert_eq!(
        FakerKind::from_str("internet. safe_email"),
        Err(SpecError::UnknownMinor("internet".to_string(), " safe_email".to_string()))
    );
}

#[test]
fn boolean_needs_no_minor() {
    assert_eq!(FakerKind::from_str("boolean"), Ok(FakerKind::Boolean));
    assert_eq!(FakerKind::from_str("BOOLEAN"), Ok(FakerKind::Boolean));
    assert_eq!(
        Spec::from_str("4:Boolean"),
        Ok(Spec { column: 4, kind: FakerKind::Boolean })
    );
}

#[test]
fn boolean_refuses_a_minor() {
    assert_eq!(
        FakerKind::from_str("boolean.simple"),
        Err(SpecError::UnknownMinor("boolean".to_string(), "simple".to_string()))
    );
    assert_eq!(
        FakerKind::from_str("boolean."),
        Err(SpecError::UnknownMinor("boolean".to_string(), "".to_string()))
    );
}

#[test]
fn missing_minor_is_refused() {
    assert_eq!(
        FakerKind::from_str("name"),
        Err(SpecError::InvalidKind("name".to_string()))
    );
    assert_eq!(
        Spec::from_str("0:Lorem"),
        Err(SpecError::InvalidKind("Lorem".to_string()))
    );
}

#[test]
fn unknown_major_is_refused_with_its_token() {
    assert_eq!(
        FakerKind::from_str("colour.red"),
        Err(SpecError::UnknownMajor("colour".to_string()))
    );
    assert_eq!(
        FakerKind::from_str("colour"),
        Err(SpecError::UnknownMajor("colour".to_string()))
    );
    assert_eq!(
        FakerKind::from_str(""),
        Err(SpecError::UnknownMajor("".to_string()))
    );
    assert_eq!(
        Spec::from_str("2:names.first_name"),
        Err(SpecError::UnknownMajor("names".to_string()))
    );
}

#[test]
fn unknown_minor_names_major_and_minor() {
    assert_eq!(
        Spec::from_str("2:Name.nickname"),
        Err(SpecError::UnknownMinor("Name".to_string(), "nickname".to_string()))
    );
    assert_eq!(
        FakerKind::from_str("name."),
        Err(SpecError::UnknownMinor("name".to_string(), "".to_string()))
    );
}

#[test]
fn minor_is_split_at_the_first_dot() {
    assert_eq!(
        FakerKind::from_str("name.first_name.x"),
        Err(SpecError::UnknownMinor("name".to_string(), "first_name.x".to_string()))
    );
}

#[test]
fn token_without_colon_is_refused() {
    assert_eq!(
        Spec::from_str("name.first_name"),
        Err(SpecError::InvalidFormat("name.first_name".to_string()))
    );
    assert_eq!(Spec::from_str(""), Err(SpecError::InvalidFormat("".to_string())));
}

#[test]
fn kind_is_split_off_at_the_first_colon() {
    assert_eq!(
        Spec::from_str("1:2:name.first_name"),
        Err(SpecError::UnknownMajor("2:name".to_string()))
    );
}

#[test]
fn bad_columns_are_refused_with_their_text() {
    for bad in ["", "x", "-1", "1.5", " 1", "1 ", "++1", "+", "1a", "٣"] {
        let token = format!("{}:name.first_name", bad);
        assert_eq!(
            Spec::from_str(&token),
            Err(SpecError::InvalidColumn(bad.to_string())),
            "column {:?}",
            bad
        );
    }
}

#[test]
fn column_is_checked_before_kind() {
    assert_eq!(
        Spec::from_str("x:nonsense"),
        Err(SpecError::InvalidColumn("x".to_string()))
    );
}

#[test]
fn column_must_fit_in_usize() {
    let max = usize::MAX;
    let fits = format!("{}:number.digit", max);
    assert_eq!(Spec::from_str(&fits).unwrap().column, max);
    let too_big = format!("{}0", max);
    assert_eq!(
        Spec::from_str(&format!("{}:number.digit", too_big)),
        Err(SpecError::InvalidColumn(too_big.clone()))
    );
    let next = (max as u128 + 1).to_string();
    assert_eq!(
        Spec::from_str(&format!("{}:number.digit", next)),
        Err(SpecError::InvalidColumn(next.clone()))
    );
    let long_zero = "0".repeat(100);
    assert_eq!(Spec::from_str(&format!("{}:number.digit", long_zero)).unwrap().column, 0);
}

#[test]
fn parse_column_reads_decimal() {
    assert_eq!(parse_column(&to_chars("0")), Some(0));
    assert_eq!(parse_column(&to_chars("42")), Some(42));
    assert_eq!(parse_column(&to_chars("+42")), Some(42));
    assert_eq!(parse_column(&to_chars("4 2")), None);
    assert_eq!(parse_column(&to_chars("")), None);
}

#[test]
fn find_char_gives_first_occurrence() {
    assert_eq!(find_char(&to_chars("a:b:c"), ':'), Some(1));
    assert_eq!(find_char(&to_chars(":"), ':'), Some(0));
    assert_eq!(find_char(&to_chars("abc"), ':'), None);
    assert_eq!(find_char(&to_chars("é:"), ':'), Some(1));
}

#[test]
fn matches_name_ignores_ascii_case_only() {
    assert!(matches_name(&to_chars("NaMe"), "name"));
    assert!(matches_name(&to_chars("name"), "Name"));
    assert!(!matches_name(&to_chars("names"), "name"));
    assert!(!matches_name(&to_chars("nam"), "name"));
    assert!(!matches_name(&to_chars("n@me"), "name"));
    assert!(!matches_name(&to_chars("É"), "é"));
    assert!(matches_name(&to_chars(""), ""));
}

#[test]
fn every_listed_combination_round_trips() {
    let groups = FakerKind::combinations();
    let mut seen = 0;
    for group in &groups {
        for kind in group {
            let notation = kind.notation_string();
            let token = format!("0:{}", notation);
            assert_eq!(Spec::from_str(&token), Ok(Spec { column: 0, kind: *kind }), "{}", token);
            assert_eq!(
                Spec::from_str(&token.to_uppercase()),
                Ok(Spec { column: 0, kind: *kind }),
                "{}",
                token
            );
            assert_eq!(
                Spec::from_str(&token.to_lowercase()),
                Ok(Spec { column: 0, kind: *kind }),
                "{}",
                token
            );
            seen += 1;
        }
    }
    assert_eq!(seen, 53);
}

#[test]
fn listing_is_grouped_in_fixed_order() {
    let groups = FakerKind::combinations();
    let sizes: Vec<usize> = groups.iter().map(|g| g.len()).collect();
    assert_eq!(sizes, vec![10, 15, 7, 6, 3, 11, 1]);
    assert_eq!(groups[0][0], FakerKind::Name(NameKind::FirstName));
    assert_eq!(groups[0][9], FakerKind::Name(NameKind::Title));
    assert_eq!(groups[1][0], FakerKind::Address(AddressKind::TimeZone));
    assert_eq!(groups[2][4], FakerKind::Company(CompanyKind::Bs));
    assert_eq!(groups[3][5], FakerKind::Lorem(LoremKind::Paragraphs));
    assert_eq!(groups[4][2], FakerKind::Number(NumberKind::Digit));
    assert_eq!(groups[5][4], FakerKind::Internet(InternetKind::SafeEmail));
    assert_eq!(groups[6], vec![FakerKind::Boolean]);
    let majors: Vec<&str> = Major::all().iter().map(|m| m.name()).collect();
    assert_eq!(
        majors,
        vec!["Name", "Address", "Company", "Lorem", "Number", "Internet", "Boolean"]
    );
}

#[test]
fn notation_joins_major_and_minor() {
    assert_eq!(FakerKind::Internet(InternetKind::Ipv4).notation_string(), "Internet.ipv4");
    assert_eq!(
        FakerKind::Name(NameKind::NameWithMiddle).notation_string(),
        "Name.name_with_middle"
    );
    assert_eq!(FakerKind::Boolean.notation_string(), "Boolean");
    assert_eq!(FakerKind::Boolean.minor_name(), None);
    assert_eq!(FakerKind::Boolean.as_ref(), "Boolean");
    assert_eq!(FakerKind::Lorem(LoremKind::Word).as_ref(), "Lorem");
    assert_eq!(FakerKind::Address(AddressKind::StateAbbr).minor_name(), Some("state_abbr"));
    assert_eq!(FakerKind::Address(AddressKind::StateAbbr).major_of(), Major::Address);
}

#[test]
fn minor_names_and_lookups_agree() {
    for kind in InternetKind::all() {
        assert_eq!(lookup::<InternetKind>(kind.name()), Some(kind));
        assert_eq!(lookup::<InternetKind>(kind.compact_name()), Some(kind));
        assert_eq!(lookup::<InternetKind>(&kind.name().to_uppercase()), Some(kind));
    }
    for kind in NameKind::all() {
        assert_eq!(lookup::<NameKind>(kind.name()), Some(kind));
        assert_eq!(lookup::<NameKind>(kind.compact_name()), Some(kind));
    }
    for kind in AddressKind::all() {
        assert_eq!(lookup::<AddressKind>(kind.name()), Some(kind));
        assert_eq!(lookup::<AddressKind>(kind.compact_name()), Some(kind));
    }
    for kind in CompanyKind::all() {
        assert_eq!(lookup::<CompanyKind>(kind.name()), Some(kind));
        assert_eq!(lookup::<CompanyKind>(kind.compact_name()), Some(kind));
    }
    for kind in LoremKind::all() {
        assert_eq!(lookup::<LoremKind>(kind.name()), Some(kind));
        assert_eq!(lookup::<LoremKind>(kind.compact_name()), Some(kind));
    }
    for kind in NumberKind::all() {
        assert_eq!(lookup::<NumberKind>(kind.name()), Some(kind));
        assert_eq!(lookup::<NumberKind>(kind.compact_name()), Some(kind));
    }
    assert_eq!(lookup::<NumberKind>("phone"), None);
    assert_eq!(lookup::<LoremKind>(""), None);
    assert_eq!(lookup::<LoremKind>("first_name"), None);
    assert_eq!(lookup::<CompanyKind>("suffix"), Some(CompanyKind::Suffix));
    assert_eq!(lookup::<NameKind>("suffix"), Some(NameKind::Suffix));
}

#[test]
fn major_lookup_and_minor_lookup() {
    assert_eq!(Major::from_str("LOREM"), Some(Major::Lorem));
    assert_eq!(Major::from_str("lorem "), None);
    assert_eq!(Major::Lorem.minor("words"), Some(FakerKind::Lorem(LoremKind::Words)));
    assert_eq!(Major::Lorem.minor("first_name"), None);
    assert_eq!(Major::Boolean.minor("simple"), None);
    assert_eq!(Major::Name.kinds().len(), 10);
    assert!(named(NameKind::TitleJob, &to_chars("TITLEJOB")));
    assert!(!named(NameKind::TitleJob, &to_chars("title")));
    assert_eq!(NameKind::TitleJob.wrap(), FakerKind::Name(NameKind::TitleJob));
    assert_eq!(
        kinds::<NumberKind>(),
        vec![
            FakerKind::Number(NumberKind::PhoneNumber),
            FakerKind::Number(NumberKind::CellNumber),
            FakerKind::Number(NumberKind::Digit),
        ]
    );
}
