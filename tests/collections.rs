use itemize::items::{Either, IntoItems, IntoRows, TryIntoItems};
use itemize::variadic::{IntoVariadicRows, TryIntoVariadicRows};

#[derive(Clone, Debug, PartialEq, Eq)]
struct Custom(String);

impl<T> From<T> for Custom
where
    T: ToString,
{
    fn from(value: T) -> Self {
        Custom(value.to_string())
    }
}

fn into_items(x: impl IntoItems<Custom>) -> Vec<Custom> {
    x.into_items()
}

fn into_rows(x: impl IntoRows<Custom>) -> Vec<Vec<Custom>> {
    x.into_rows()
}

fn texts(items: &[Custom]) -> Vec<&str> {
    items.iter().map(|c| c.0.as_str()).collect()
}

#[test]
fn test_into_rows_for_collections() {
    // single values
    into_rows(((1,),));
    into_rows(((3.14f64,),));
    into_rows((("1".to_string(),),));

    // collections
    into_rows(vec![&vec![1, 2, 3], &vec![4, 5, 6]]);
    into_rows(&vec![[1, 2, 3], [4, 5, 6]]);

    // tuples
    into_rows(((1, "2", 3f64), (4, "5", 6f64)));
    into_rows((&(1, "2", 3f64), &(4, "5", 6f64)));
    into_rows((&(1, &"2", 3f64), &(4, &"5", 6f64)));
}

#[test]
fn tuple_items_keep_position_order() {
    assert_eq!(texts(&into_items((1, "two", 'c'))), vec!["1", "two", "c"]);
    assert_eq!(texts(&into_items(&(1, "two", 'c'))), vec!["1", "two", "c"]);
}

#[test]
fn collections_yield_one_item_per_element() {
    assert_eq!(texts(&into_items(vec![3, 1, 2])), vec!["3", "1", "2"]);
    assert_eq!(texts(&into_items([3, 1, 2])), vec!["3", "1", "2"]);
    assert_eq!(texts(&into_items(&[3, 1, 2][..])), vec!["3", "1", "2"]);
    assert_eq!(texts(&into_items(&vec![3, 1, 2])), vec!["3", "1", "2"]);
    assert_eq!(texts(&into_items(&[3, 1, 2])), vec!["3", "1", "2"]);
}

#[test]
fn empty_collections_yield_nothing() {
    let empty: Vec<i32> = Vec::new();
    assert!(into_items(empty).is_empty());
    let none: [i32; 0] = [];
    assert!(into_items(none).is_empty());
    let slice: &[i32] = &[];
    assert!(into_items(slice).is_empty());
}

#[test]
fn rows_follow_tuple_positions() {
    let rows = into_rows((vec![1, 2], vec![3, 4, 5]));
    assert_eq!(rows.len(), 2);
    assert_eq!(texts(&rows[0]), vec!["1", "2"]);
    assert_eq!(texts(&rows[1]), vec!["3", "4", "5"]);
    let rows = into_rows(&vec![[1, 2], [3, 4]]);
    assert_eq!(texts(&rows[1]), vec!["3", "4"]);
}

#[test]
fn either_converts_as_the_side_it_holds() {
    let left: Either<(i32, i32), [i32; 1]> = Either::Left((1, 2));
    let right: Either<(i32, i32), [i32; 1]> = Either::Right([3]);
    assert_eq!(texts(&into_items(left)), vec!["1", "2"]);
    assert_eq!(texts(&into_items(right)), vec!["3"]);
}

fn into_variadic_rows(x: impl IntoVariadicRows<Custom>) -> Vec<Vec<Custom>> {
    x.into_variadic_rows().into_iter().map(|row| row.into_items()).collect()
}

#[test]
fn test_into_variadic_rows_for_tuples() {
    assert_eq!(
        into_variadic_rows(((1, "2"), (4, "5", 6f64))),
        vec![into_items(("1", "2")), into_items(("4", "5", "6")),]
    );
}

#[test]
fn variadic_rows_tag_each_position() {
    let rows = IntoVariadicRows::<Custom>::into_variadic_rows(((1,), vec![2, 3], [4, 5, 6]));
    assert!(matches!(rows[0], Either::Left(_)));
    assert!(matches!(rows[1], Either::Right(Either::Left(_))));
    assert!(matches!(rows[2], Either::Right(Either::Right(_))));
    let flat: Vec<Vec<Custom>> = rows.into_iter().map(|row| row.into_items()).collect();
    assert_eq!(texts(&flat[0]), vec!["1"]);
    assert_eq!(texts(&flat[1]), vec!["2", "3"]);
    assert_eq!(texts(&flat[2]), vec!["4", "5", "6"]);
}

#[derive(Debug, PartialEq)]
struct Even(u32);

impl TryFrom<u32> for Even {
    type Error = String;
    fn try_from(n: u32) -> Result<Self, String> {
        if n % 2 == 0 {
            Ok(Even(n))
        } else {
            Err(format!("{} is odd", n))
        }
    }
}

#[test]
fn fallible_variadic_rows_fail_per_row() {
    let rows = TryIntoVariadicRows::<Even, String>::try_into_variadic_rows((vec![2u32, 4], [3u32]));
    let results: Vec<Result<Vec<Even>, String>> =
        rows.into_iter().map(|row| row.try_into_items()).collect();
    assert_eq!(results[0], Ok(vec![Even(2), Even(4)]));
    assert_eq!(results[1], Err("3 is odd".to_string()));
}
