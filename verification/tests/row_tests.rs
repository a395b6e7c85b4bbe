use orc_view::Row;

fn s(text: &str) -> String {
    text.to_string()
}

#[test]
fn a_new_row_is_empty() {
    let row = Row::new();
    assert_eq!(row.len(), 0);
    assert_eq!(row.get(&s("id")), None);
}

#[test]
fn entries_stay_in_the_order_of_insertion() {
    let mut row = Row::new();
    row.insert(s("b"), s("2"));
    row.insert(s("a"), s("1"));
    row.insert(s("c"), s("3"));
    assert_eq!(row.len(), 3);
    assert_eq!(row.name_at(0), "b");
    assert_eq!(row.name_at(1), "a");
    assert_eq!(row.name_at(2), "c");
    assert_eq!(row.value_at(0), "2");
    assert_eq!(row.value_at(1), "1");
    assert_eq!(row.value_at(2), "3");
    assert_eq!(row.get(&s("a")), Some(&s("1")));
    assert_eq!(row.get(&s("d")), None);
}

#[test]
fn inserting_a_name_again_replaces_its_value_in_place() {
    let mut row = Row::new();
    row.insert(s("a"), s("1"));
    row.insert(s("b"), s("2"));
    row.insert(s("a"), s("9"));
    assert_eq!(row.len(), 2);
    assert_eq!(row.name_at(0), "a");
    assert_eq!(row.value_at(0), "9");
    assert_eq!(row.name_at(1), "b");
    assert_eq!(row.get(&s("a")), Some(&s("9")));
    assert_eq!(row.get(&s("b")), Some(&s("2")));
}

#[test]
fn names_are_told_apart_by_case_and_by_length() {
    let mut row = Row::new();
    row.insert(s("id"), s("1"));
    row.insert(s("ID"), s("2"));
    row.insert(s(""), s("3"));
    row.insert(s("id "), s("4"));
    assert_eq!(row.len(), 4);
    assert_eq!(row.get(&s("id")), Some(&s("1")));
    assert_eq!(row.get(&s("ID")), Some(&s("2")));
    assert_eq!(row.get(&s("")), Some(&s("3")));
    assert_eq!(row.get(&s("id ")), Some(&s("4")));
}
