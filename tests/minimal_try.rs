use itemize::items::TryIntoItems;
use itemize::samples::{Simple, WithTypes};

#[test]
fn test_minimal() {
    // Test Simple
    let s = Simple(42);
    let items: Result<Vec<Simple>, std::convert::Infallible> = s.try_into_items();
    assert_eq!(items.unwrap(), vec![Simple(42)]);

    // Test WithTypes
    let w = WithTypes(42);
    let items: Result<Vec<WithTypes>, String> = w.try_into_items();
    assert_eq!(items.unwrap(), vec![WithTypes(42)]);

    // Test conversion - need to specify error type due to generic implementation
    let s = "123".to_string();
    let items: Result<Vec<WithTypes>, String> = TryIntoItems::<WithTypes, String>::try_into_items(s);
    assert_eq!(items.unwrap(), vec![WithTypes(123)]);
}

#[test]
fn with_types_refuses_text_that_is_no_number() {
    let items: Result<Vec<WithTypes>, String> =
        TryIntoItems::<WithTypes, String>::try_into_items("12a".to_string());
    assert!(!items.unwrap_err().is_empty());
}
