use auth_core::table::Table;

fn listing(table: &Table<u32>) -> Vec<(String, u32)> {
    (0..table.len()).map(|i| (table.key_at(i).to_string(), *table.value_at(i))).collect()
}

#[test]
fn a_new_table_is_empty() {
    let table: Table<u32> = Table::new();
    assert_eq!(table.len(), 0);
    assert!(!table.contains_key("a"));
    assert!(table.get("a").is_none());
    assert!(listing(&table).is_empty());
}

#[test]
fn a_table_lists_keys_in_insertion_order() {
    let mut table: Table<u32> = Table::new();
    table.insert("b".to_string(), 2);
    table.insert("a".to_string(), 1);
    table.insert("c".to_string(), 3);
    assert_eq!(table.len(), 3);
    assert_eq!(table.get("a"), Some(&1));
    assert_eq!(table.get("b"), Some(&2));
    assert_eq!(table.get("d"), None);
    assert!(table.contains_key("c"));
    assert_eq!(
        listing(&table),
        vec![("b".to_string(), 2), ("a".to_string(), 1), ("c".to_string(), 3)]
    );
}

#[test]
fn replacing_keeps_the_place_and_removing_closes_the_gap() {
    let mut table: Table<u32> = Table::new();
    table.insert("b".to_string(), 2);
    table.insert("a".to_string(), 1);
    table.insert("c".to_string(), 3);
    table.replace("a", 10);
    assert_eq!(
        listing(&table),
        vec![("b".to_string(), 2), ("a".to_string(), 10), ("c".to_string(), 3)]
    );
    table.remove("b");
    assert_eq!(listing(&table), vec![("a".to_string(), 10), ("c".to_string(), 3)]);
    table.remove("missing");
    assert_eq!(table.len(), 2);
    table.remove("c");
    table.remove("a");
    assert_eq!(table.len(), 0);
    assert!(!table.contains_key("a"));
    table.insert("a".to_string(), 7);
    assert_eq!(listing(&table), vec![("a".to_string(), 7)]);
}
