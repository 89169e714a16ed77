use itemize::items::{IntoItems, IntoRows};
use itemize::samples::MySimpleType;

#[test]
fn generics_test_into_items() {
    fn into_items(x: impl IntoItems<MySimpleType>) -> Vec<MySimpleType> {
        x.into_items()
    }

    let _ = into_items(String::from("hello"));
    let _ = into_items('a');
    let _ = into_items(("1",));
    let _ = into_items(("1", "2"));
    let _ = into_items(vec!["4", "5", "6"]);
    let _ = into_items(["a", "b", "c"]);

    fn into_rows(x: impl IntoRows<MySimpleType>) -> Vec<Vec<MySimpleType>> {
        x.into_rows()
    }
    let _ = into_rows(MySimpleType("hello".to_string()));
}

#[test]
fn lib_test_into_items() {
    fn into_items(x: impl IntoItems<MySimpleType>) -> Vec<MySimpleType> {
        x.into_items()
    }
    let _ = into_items(1);
    let _ = into_items("1");
    let _ = into_items(("1",));
    let _ = into_items(("1", "2"));
}

#[test]
fn simple_test_into_items() {
    fn into_items(x: impl IntoItems<MySimpleType>) -> Vec<MySimpleType> {
        x.into_items()
    }
    let _ = into_items(1);
    let _ = into_items("1");
    let _ = into_items(("1",));
    let _ = into_items(("1", "2"));
    let _ = into_items(vec!["4", "5", "6"]);
    let _ = into_items([1, 2, 3]);
}

#[test]
fn numbers_become_their_decimal_text() {
    fn into_items(x: impl IntoItems<MySimpleType>) -> Vec<MySimpleType> {
        x.into_items()
    }
    let text = |s: &str| MySimpleType(s.to_string());
    assert_eq!(into_items(-42), vec![text("-42")]);
    assert_eq!(into_items([1, 20, 300]), vec![text("1"), text("20"), text("300")]);
    assert_eq!(
        MySimpleType("row".to_string()).into_rows(),
        vec![vec![text("row")]]
    );
}
