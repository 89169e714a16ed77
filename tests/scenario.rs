use itemize::items::IntoItems;
use itemize::samples::MySimpleType;

fn into_items(x: impl IntoItems<MySimpleType>) -> Vec<MySimpleType> {
    x.into_items()
}

fn text(s: &str) -> MySimpleType {
    MySimpleType(s.to_string())
}

#[test]
fn text_target_scenario() {
    assert_eq!(into_items("hi".to_string()), vec![text("hi")]);
    assert_eq!(into_items('a'), vec![text("a")]);
    assert_eq!(into_items(("x".to_string(), 'y')), vec![text("x"), text("y")]);
    assert_eq!(
        into_items(vec!['a', 'b', 'c']),
        vec![text("a"), text("b"), text("c")]
    );
    assert_eq!(into_items("z"), vec![text("z")]);
}

#[test]
fn char_text_is_the_character_itself() {
    assert_eq!(MySimpleType::of_char('é').0, "é");
    assert_eq!(MySimpleType::of_str("ab").0, "ab");
}

use itemize::items::{IntoRows, TryIntoItems, TryIntoRows};
use itemize::samples::{Int, ParseError};

fn try_into_items(x: impl TryIntoItems<Int, ParseError>) -> Result<Vec<Int>, ParseError> {
    x.try_into_items()
}

#[test]
fn parse_scenario_with_its_own_error() {
    assert_eq!(try_into_items("42".to_string()), Ok(vec![Int(42)]));
    assert_eq!(try_into_items("abc".to_string()), Err(ParseError::BadInt));
    assert_eq!(try_into_items(Int(7)), Ok(vec![Int(7)]));
    assert_eq!(
        try_into_items(("1".to_string(), "-2".to_string())),
        Ok(vec![Int(1), Int(-2)])
    );
    assert_eq!(
        try_into_items(vec!["1".to_string(), "x".to_string(), "3".to_string()]),
        Err(ParseError::BadInt)
    );
    let rows = TryIntoRows::<Int, ParseError>::try_into_rows(vec![
        vec!["1".to_string()],
        vec!["no".to_string()],
    ]);
    assert_eq!(rows, vec![Ok(vec![Int(1)]), Err(ParseError::BadInt)]);
}

#[test]
fn six_positions_keep_their_order() {
    assert_eq!(
        into_items(('a', 'b', 'c', 'd', 'e', 'f')),
        vec![text("a"), text("b"), text("c"), text("d"), text("e"), text("f")]
    );
    let rows = IntoRows::<MySimpleType>::into_rows(("a", ('b', 'c'), "d", "e", "f", ("g",)));
    assert_eq!(rows.len(), 6);
    assert_eq!(rows[1], vec![text("b"), text("c")]);
}
