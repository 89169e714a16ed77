use itemize::items::{TryIntoItems, TryIntoRows};
use itemize::samples::{Number, Row, ValidatedValue};
use std::num::ParseIntError;

#[test]
fn test_try_into_items_basic() {
    // Helper function with explicit error type
    fn try_into_items(
        x: impl TryIntoItems<Number, ParseIntError>,
    ) -> Result<Vec<Number>, ParseIntError> {
        x.try_into_items()
    }

    // Self implementation
    assert_eq!(try_into_items(Number(42)).unwrap(), vec![Number(42)]);

    // From types
    assert_eq!(
        try_into_items("123".to_string()).unwrap(),
        vec![Number(123)]
    );

    // Error cases
    assert!(try_into_items("not a number".to_string()).is_err());
}

#[test]
fn test_try_into_items_tuples() {
    // Use concrete error type to avoid inference issues
    fn try_into_items(
        x: impl TryIntoItems<Number, ParseIntError>,
    ) -> Result<Vec<Number>, ParseIntError> {
        x.try_into_items()
    }

    // Tuple implementations
    let result = try_into_items(("10".to_string(), "20".to_string()));
    assert_eq!(result.unwrap(), vec![Number(10), Number(20)]);

    // Error in tuple
    let result = try_into_items(("42".to_string(), "bad".to_string()));
    assert!(result.is_err());
}

#[test]
fn test_try_into_items_collections() {
    // Use concrete error type
    fn try_into_items(
        x: impl TryIntoItems<Number, ParseIntError>,
    ) -> Result<Vec<Number>, ParseIntError> {
        x.try_into_items()
    }

    // Vec
    let result = try_into_items(vec!["1".to_string(), "2".to_string(), "3".to_string()]);
    assert_eq!(result.unwrap(), vec![Number(1), Number(2), Number(3)]);

    // Error in collection
    let result = try_into_items(vec!["1".to_string(), "2".to_string(), "bad".to_string()]);
    assert!(result.is_err());
}

#[test]
fn test_try_into_items_custom_error() {
    fn try_into_items(
        x: impl TryIntoItems<ValidatedValue, String>,
    ) -> Result<Vec<ValidatedValue>, String> {
        x.try_into_items()
    }

    // Valid values
    assert_eq!(try_into_items(42).unwrap(), vec![ValidatedValue(42)]);
    assert_eq!(
        try_into_items("100".to_string()).unwrap(),
        vec![ValidatedValue(100)]
    );

    // Invalid values
    let err = try_into_items(-5).unwrap_err();
    assert_eq!(err, "Value must be non-negative");

    let err = try_into_items("invalid".to_string()).unwrap_err();
    assert!(err.contains("Parse error"));
}

#[test]
fn try_variants_test_try_into_rows() {
    fn try_into_rows(x: impl TryIntoRows<Row, String>) -> Result<Vec<Vec<Row>>, String> {
        x.try_into_rows().into_iter().collect()
    }

    // Self
    assert_eq!(
        try_into_rows(Row("test".to_string())).unwrap(),
        vec![vec![Row("test".to_string())]]
    );

    // Tuples
    let input = (
        ("a".to_string(), "b".to_string()),
        ("c".to_string(), "d".to_string()),
    );
    assert_eq!(
        try_into_rows(input).unwrap(),
        vec![
            vec![Row("a".to_string()), Row("b".to_string())],
            vec![Row("c".to_string()), Row("d".to_string())],
        ]
    );

    // Collections
    let input = vec![
        ("x".to_string(), "y".to_string()),
        ("z".to_string(), "w".to_string()),
    ];
    assert_eq!(
        try_into_rows(input).unwrap(),
        vec![
            vec![Row("x".to_string()), Row("y".to_string())],
            vec![Row("z".to_string()), Row("w".to_string())],
        ]
    );

    // Error case - empty string
    let input = (
        ("valid".to_string(), "".to_string()),
        ("test".to_string(), "data".to_string()),
    );
    let result = try_into_rows(input);
    assert!(result.is_err());
}

#[test]
fn first_failing_element_decides_the_error() {
    fn try_into_items(
        x: impl TryIntoItems<ValidatedValue, String>,
    ) -> Result<Vec<ValidatedValue>, String> {
        x.try_into_items()
    }
    // The third of five fails; the fourth would fail differently.
    let err = try_into_items(vec![
        "1".to_string(),
        "2".to_string(),
        "x".to_string(),
        "-4".to_string(),
        "y".to_string(),
    ])
    .unwrap_err();
    assert!(err.starts_with("Parse error: "));
    let err = try_into_items([1, 2, -3, 4, -5]).unwrap_err();
    assert_eq!(err, "Value must be non-negative");
}

#[test]
fn empty_collections_give_empty_results() {
    fn try_into_items(
        x: impl TryIntoItems<Number, ParseIntError>,
    ) -> Result<Vec<Number>, ParseIntError> {
        x.try_into_items()
    }
    let empty: Vec<String> = Vec::new();
    assert_eq!(try_into_items(empty).unwrap(), Vec::<Number>::new());
    let none: [String; 0] = [];
    assert_eq!(try_into_items(none).unwrap(), Vec::<Number>::new());
}

#[test]
fn numbers_keep_their_sign_and_range() {
    fn try_into_items(
        x: impl TryIntoItems<Number, ParseIntError>,
    ) -> Result<Vec<Number>, ParseIntError> {
        x.try_into_items()
    }
    assert_eq!(
        try_into_items(("-7".to_string(), "+8".to_string(), "2147483647".to_string())).unwrap(),
        vec![Number(-7), Number(8), Number(2147483647)]
    );
    assert!(try_into_items("2147483648".to_string()).is_err());
    assert!(try_into_items("".to_string()).is_err());
    assert!(try_into_items("-".to_string()).is_err());
}

#[test]
fn a_failing_row_keeps_every_other_row() {
    let input = (
        ("valid".to_string(), "".to_string()),
        ("test".to_string(), "data".to_string()),
    );
    let rows = TryIntoRows::<Row, String>::try_into_rows(input);
    assert_eq!(rows.len(), 2);
    assert_eq!(rows[0], Err("Empty string not allowed".to_string()));
    assert_eq!(
        rows[1],
        Ok(vec![Row("test".to_string()), Row("data".to_string())])
    );
}
