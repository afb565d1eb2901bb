use swift_highlight::{class_attr_for, class_attr_string, get_class_table, highlight_names, sanitize};

#[test]
fn class_table_has_one_entry_per_category_in_order() {
    let names = highlight_names();
    let table = get_class_table();
    assert_eq!(names.len(), 18);
    assert_eq!(table.len(), names.len());
    for (i, name) in names.iter().enumerate() {
        assert_eq!(table[i], format!("class=\"ts-{}\"", name));
    }
    assert_eq!(table[0], "class=\"ts-attribute\"");
    assert_eq!(table[7], "class=\"ts-keyword\"");
    assert_eq!(table[10], "class=\"ts-number\"");
    assert_eq!(table[17], "class=\"ts-variable\"");
}

#[test]
fn class_table_entries_unique() {
    let table = get_class_table();
    for i in 0..table.len() {
        for j in 0..table.len() {
            if i != j {
                assert_ne!(table[i], table[j]);
            }
        }
    }
}

#[test]
fn class_table_entries_hold_no_disallowed_character() {
    let table = get_class_table();
    for entry in &table {
        assert!(!entry.contains('.'));
    }
}

#[test]
fn sanitize_replaces_dots() {
    assert_eq!(sanitize("keyword.repeat"), "keyword-repeat");
    assert_eq!(sanitize("a.b.c"), "a-b-c");
    assert_eq!(sanitize("keyword"), "keyword");
    assert_eq!(sanitize(""), "");
}

#[test]
fn class_attr_string_builds_full_fragment() {
    assert_eq!(class_attr_string("keyword"), "class=\"ts-keyword\"");
    assert_eq!(class_attr_string("number.float"), "class=\"ts-number-float\"");
}

#[test]
fn class_attr_for_is_bounds_checked() {
    let table = get_class_table();
    assert_eq!(class_attr_for(&table, 0), "class=\"ts-attribute\"");
    assert_eq!(class_attr_for(&table, 17), "class=\"ts-variable\"");
    assert_eq!(class_attr_for(&table, 18), "");
    assert_eq!(class_attr_for(&table, 9999), "");
}

#[test]
fn class_table_value_identical_across_calls() {
    assert_eq!(get_class_table(), get_class_table());
}
