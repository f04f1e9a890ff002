use anon_csv::directive::Spec;
use anon_csv::error::{decimal_string, AnonError, SpecError};

#[test]
fn decimal_string_writes_numbers() {
    assert_eq!(decimal_string(0), "0");
    assert_eq!(decimal_string(7), "7");
    assert_eq!(decimal_string(10), "10");
    assert_eq!(decimal_string(1090), "1090");
    assert_eq!(decimal_string(usize::MAX), usize::MAX.to_string());
}

#[test]
fn duplicate_message_states_the_count() {
    assert_eq!(
        AnonError::DuplicateColumns(3).message(),
        "rewrite specifications contained 3 duplicate column(s)"
    );
}

#[test]
fn range_message_states_column_and_width() {
    assert_eq!(
        AnonError::ColumnOutOfRange { column: 12, width: 5 }.message(),
        "Invalid column index 12 - rows have no more than 5 columns"
    );
}

#[test]
fn parse_messages_quote_the_offending_text() {
    assert_eq!(
        Spec::from_str("nonsense").unwrap_err().message(),
        "Invalid format for rewrite spec. It should be <column>:<type>, but was 'nonsense'"
    );
    assert_eq!(
        Spec::from_str("x1:name.first_name").unwrap_err().message(),
        "Could not parse 'x1' as unsigned integer"
    );
    assert_eq!(
        Spec::from_str("1:name").unwrap_err().message(),
        "Invalid faker kind: 'name'"
    );
    assert_eq!(
        Spec::from_str("1:Names.first").unwrap_err().message(),
        "Unknown major faker kind: 'Names'"
    );
    assert_eq!(
        SpecError::UnknownMinor("name".to_string(), "nick".to_string()).message(),
        "Unknown minor faker kind: 'nick' of major kind 'name'"
    );
    assert_eq!(
        Spec::from_str("1:boolean.simple").unwrap_err().message(),
        "Unknown minor faker kind: 'simple' of major kind 'boolean'"
    );
}
