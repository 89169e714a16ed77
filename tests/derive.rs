use itemize::items::{IntoItems, IntoRows, TryIntoItems, TryIntoRows};
use itemize::samples::{Bar, Foo};

#[test]
fn derive_test_into_items() {
    fn into_items(x: impl IntoItems<Foo<String>>) -> Vec<Foo<String>> {
        x.into_items()
    }
    let _ = into_items("hello");
    let _ = into_items('a');
    let _ = into_items(("1",));
    let _ = into_items(("10", 10));
    let _ = into_items(vec!["4", "5", "6"]);
    let _ = into_items(["a", "b", "c"]);
}

#[test]
fn text_cells_from_every_declared_type() {
    fn into_items(x: impl IntoItems<Foo<String>>) -> Vec<Foo<String>> {
        x.into_items()
    }
    let text = |s: &str| Foo(s.to_string());
    assert_eq!(into_items("hello"), vec![text("hello")]);
    assert_eq!(into_items("hi".to_string()), vec![text("hi")]);
    assert_eq!(into_items('a'), vec![text("a")]);
    assert_eq!(into_items(("10", -10)), vec![text("10"), text("-10")]);
}

#[test]
fn test_into_rows() {
    fn into_rows(x: impl IntoRows<Foo<String>>) -> Vec<Vec<Foo<String>>> {
        x.into_rows()
    }
    let _ = into_rows(("hello",));
    let _ = into_rows((("a", "b"), ("c", "d")));
    let _ = into_rows([["a", "b", "c"], ["d", "e", "f"]]);
    let _ = into_rows(vec![["a", "b", "c"], ["d", "e", "f"]]);
    let _ = into_rows(vec![vec!["a", "b", "c"], vec!["d", "e", "f"]]);
}

#[test]
fn test_try_into_items() {
    fn try_into_items(
        x: impl TryIntoItems<Bar<usize>, std::num::ParseIntError>,
    ) -> Result<Vec<Bar<usize>>, std::num::ParseIntError> {
        x.try_into_items()
    }
    let _ = try_into_items("hello");
    let _ = try_into_items("a");
    let _ = try_into_items(("1",));
    let _ = try_into_items((10, "20".to_string()));
    let _ = try_into_items(vec!["4", "5", "6"]);
    let _ = try_into_items(["a", "b", "c"]);
}

#[test]
fn derive_test_try_into_rows() {
    fn try_into_rows(
        x: impl TryIntoRows<Bar<usize>, std::num::ParseIntError>,
    ) -> Result<Vec<Vec<Bar<usize>>>, std::num::ParseIntError> {
        x.try_into_rows().into_iter().collect()
    }
    let _ = try_into_rows(("hello",));
    let _ = try_into_rows((("a", "b".to_string()), (3, "d")));
    let _ = try_into_rows([["a", "b", "c"], ["d", "e", "f"]]);
    let _ = try_into_rows(vec![["a", "b", "c"], ["d", "e", "f"]]);
    let _ = try_into_rows(vec![vec!["a", "b", "c"], vec!["1", "2"]]);
}

#[test]
fn rows_of_text_cells_keep_their_shape() {
    fn into_rows(x: impl IntoRows<Foo<String>>) -> Vec<Vec<Foo<String>>> {
        x.into_rows()
    }
    let rows = into_rows((("a", "b"), ["c", "d", "e"]));
    assert_eq!(
        rows,
        vec![
            vec![Foo("a".to_string()), Foo("b".to_string())],
            vec![Foo("c".to_string()), Foo("d".to_string()), Foo("e".to_string())],
        ]
    );
}

#[test]
fn counts_parse_and_stop_at_the_first_bad_cell() {
    fn try_into_items(
        x: impl TryIntoItems<Bar<usize>, std::num::ParseIntError>,
    ) -> Result<Vec<Bar<usize>>, std::num::ParseIntError> {
        x.try_into_items()
    }
    assert_eq!(try_into_items("7").unwrap(), vec![Bar(7)]);
    assert_eq!(try_into_items((10, "20".to_string())).unwrap(), vec![Bar(10), Bar(20)]);
    assert_eq!(try_into_items(["1", "+2", "3"]).unwrap(), vec![Bar(1), Bar(2), Bar(3)]);
    assert!(try_into_items("-1").is_err());
    assert!(try_into_items(vec!["1", "x", "3"]).is_err());
}
