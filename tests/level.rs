use time_it::level::eq_ignore_ascii_case;
use time_it::{level_from_literals, level_from_name, ArgError, LogLevel};

#[test]
fn trace_in_any_case() {
    for arg in ["\"TRACE\"", "\"trace\"", "\"TrAcE\""] {
        assert_eq!(LogLevel::parse(arg).unwrap(), LogLevel::Trace);
    }
}

#[test]
fn every_level_by_name() {
    assert_eq!(LogLevel::parse("\"trace\"").unwrap(), LogLevel::Trace);
    assert_eq!(LogLevel::parse("\"DEBUG\"").unwrap(), LogLevel::Debug);
    assert_eq!(LogLevel::parse("\"Info\"").unwrap(), LogLevel::Info);
    assert_eq!(LogLevel::parse("\"wArN\"").unwrap(), LogLevel::Warn);
    assert_eq!(LogLevel::parse("\"error\"").unwrap(), LogLevel::Error);
}

#[test]
fn no_argument_is_debug() {
    assert_eq!(LogLevel::parse("").unwrap(), LogLevel::Debug);
    assert_eq!(LogLevel::default(), LogLevel::Debug);
}

#[test]
fn trailing_comma_is_accepted() {
    assert_eq!(LogLevel::parse("\"info\",").unwrap(), LogLevel::Info);
}

#[test]
fn multiple_arguments_rejected() {
    assert!(matches!(LogLevel::parse("\"debug\", \"info\""), Err(ArgError::MultipleArguments)));
    assert!(matches!(
        LogLevel::parse("\"debug\", \"info\", \"warn\""),
        Err(ArgError::MultipleArguments)
    ));
}

#[test]
fn numeric_argument_rejected() {
    assert!(matches!(LogLevel::parse("1"), Err(ArgError::Malformed(_))));
}

#[test]
fn literals_without_comma_rejected() {
    assert!(matches!(LogLevel::parse("\"debug\" \"info\""), Err(ArgError::Malformed(_))));
}

#[test]
fn unknown_name_rejected() {
    match LogLevel::parse("\"verbose\"") {
        Err(ArgError::UnknownLevel(name)) => assert_eq!(name, "verbose"),
        other => panic!("unexpected {:?}", other),
    }
}

#[test]
fn escaped_literal_is_decoded() {
    assert_eq!(LogLevel::parse("\"w\\x61rn\"").unwrap(), LogLevel::Warn);
}

#[test]
fn literal_values_select_level() {
    assert_eq!(level_from_literals(&vec![]).unwrap(), LogLevel::Debug);
    assert_eq!(level_from_literals(&vec!["ERROR".to_string()]).unwrap(), LogLevel::Error);
    assert!(matches!(
        level_from_literals(&vec!["a".to_string(), "b".to_string()]),
        Err(ArgError::MultipleArguments)
    ));
    match level_from_literals(&vec!["".to_string()]) {
        Err(ArgError::UnknownLevel(name)) => assert_eq!(name, ""),
        other => panic!("unexpected {:?}", other),
    }
}

#[test]
fn names_compare_without_ascii_case() {
    assert_eq!(level_from_name("iNfO"), Some(LogLevel::Info));
    assert_eq!(level_from_name("inf"), None);
    assert_eq!(level_from_name("infos"), None);
    assert!(eq_ignore_ascii_case("WaRn", "warn"));
    assert!(!eq_ignore_ascii_case("warm", "warn"));
    assert!(!eq_ignore_ascii_case("[", "{"));
    assert!(!eq_ignore_ascii_case("é", "É"));
}
