use itemize::items::{TryIntoItems, TryIntoRows};
use itemize::samples::{Integer, ValidRow};
use std::num::ParseIntError;

#[test]
fn test_basic_try_into_items() {
    // Self implementation
    let i = Integer(42);
    let result: Result<Vec<_>, ParseIntError> = i.try_into_items();
    assert_eq!(result.unwrap(), vec![Integer(42)]);

    // String conversion - success
    let s = "123".to_string();
    let result: Result<Vec<_>, ParseIntError> =
        TryIntoItems::<Integer, ParseIntError>::try_into_items(s);
    assert_eq!(result.unwrap(), vec![Integer(123)]);

    // String conversion - failure
    let s = "abc".to_string();
    let result: Result<Vec<_>, ParseIntError> =
        TryIntoItems::<Integer, ParseIntError>::try_into_items(s);
    assert!(result.is_err());
}

#[test]
fn test_try_into_items_with_tuples() {
    // Tuple success
    let t = ("hello".to_string(), "world".to_string());
    let result: Result<Vec<_>, String> = TryIntoItems::<ValidRow, String>::try_into_items(t);
    assert_eq!(
        result.unwrap(),
        vec![ValidRow("hello".to_string()), ValidRow("world".to_string())]
    );

    // Tuple with error
    let t = ("valid".to_string(), "".to_string());
    let result: Result<Vec<_>, String> = TryIntoItems::<ValidRow, String>::try_into_items(t);
    assert!(result.is_err());
}

#[test]
fn test_try_into_rows_with_collections() {
    // Vec of tuples
    let input = vec![
        ("a".to_string(), "b".to_string()),
        ("c".to_string(), "d".to_string()),
    ];
    let result: Result<Vec<Vec<_>>, String> = TryIntoRows::<ValidRow, String>::try_into_rows(input)
        .into_iter()
        .collect();

    let expected = vec![
        vec![ValidRow("a".to_string()), ValidRow("b".to_string())],
        vec![ValidRow("c".to_string()), ValidRow("d".to_string())],
    ];
    assert_eq!(result.unwrap(), expected);

    // Vec with error
    let input = vec![
        ("valid".to_string(), "also valid".to_string()),
        ("uh oh".to_string(), "".to_string()),
    ];
    let result: Result<Vec<Vec<_>>, String> = TryIntoRows::<ValidRow, String>::try_into_rows(input)
        .into_iter()
        .collect();
    assert!(result.is_err());
}

#[test]
fn integer_scenario_parses_and_refuses() {
    let ok: Result<Vec<Integer>, ParseIntError> =
        TryIntoItems::<Integer, ParseIntError>::try_into_items("42".to_string());
    assert_eq!(ok.unwrap(), vec![Integer(42)]);
    let bad: Result<Vec<Integer>, ParseIntError> =
        TryIntoItems::<Integer, ParseIntError>::try_into_items("abc".to_string());
    assert_eq!(
        bad.unwrap_err().kind(),
        &std::num::IntErrorKind::InvalidDigit
    );
}

#[test]
fn empty_cell_message_is_exact() {
    let result: Result<Vec<ValidRow>, String> =
        TryIntoItems::<ValidRow, String>::try_into_items(("".to_string(),));
    assert_eq!(result.unwrap_err(), "Empty string not allowed");
}
