use itemize::items::IntoItems;

#[derive(Debug, Clone)]
struct Item {
    value: String,
}

impl From<&str> for Item {
    fn from(s: &str) -> Self {
        Item {
            value: s.to_string(),
        }
    }
}

impl From<String> for Item {
    fn from(s: String) -> Self {
        Item { value: s }
    }
}

impl From<i32> for Item {
    fn from(i: i32) -> Self {
        Item {
            value: i.to_string(),
        }
    }
}

impl<'a> From<&'a &str> for Item {
    fn from(s: &'a &str) -> Self {
        Item {
            value: s.to_string(),
        }
    }
}

#[test]
fn test_tuples() {
    // Test tuple conversions
    let items: Vec<Item> = ("a", "b").into_items();
    assert_eq!(items.len(), 2);
    assert_eq!(items[0].value, "a");
    assert_eq!(items[1].value, "b");

    let items3: Vec<Item> = ("x", "y", "z").into_items();
    assert_eq!(items3.len(), 3);
    assert_eq!(items3[0].value, "x");
    assert_eq!(items3[1].value, "y");
    assert_eq!(items3[2].value, "z");
}

#[test]
fn test_collections() {
    // Test Vec conversion
    let vec = vec!["one", "two", "three"];
    let items: Vec<Item> = vec.into_items();
    assert_eq!(items.len(), 3);
    assert_eq!(items[0].value, "one");
    assert_eq!(items[1].value, "two");
    assert_eq!(items[2].value, "three");

    // Test slice conversion
    let slice = &["alpha", "beta"][..];
    let items: Vec<Item> = slice.into_items();
    assert_eq!(items.len(), 2);
    assert_eq!(items[0].value, "alpha");
    assert_eq!(items[1].value, "beta");

    // Test array conversion
    let array = ["foo", "bar"];
    let items: Vec<Item> = array.into_items();
    assert_eq!(items.len(), 2);
    assert_eq!(items[0].value, "foo");
    assert_eq!(items[1].value, "bar");
}
