use nuwax_codex_acp::table::Table;

#[test]
fn new_table_is_empty() {
    let table: Table<String> = Table::new();
    assert!(table.entries().is_empty());
    assert!(!table.contains_key(""));
    assert!(table.get("a").is_none());
}

#[test]
fn insert_replaces_the_value_under_a_name() {
    let mut table: Table<String> = Table::new();
    table.insert("a".to_string(), "1".to_string());
    table.insert("b".to_string(), "2".to_string());
    table.insert("a".to_string(), "3".to_string());
    assert_eq!(table.entries().len(), 2);
    assert_eq!(table.get("a").map(|v| v.as_str()), Some("3"));
    assert_eq!(table.get("b").map(|v| v.as_str()), Some("2"));
    assert!(table.contains_key("a"));
    assert!(!table.contains_key("A"));
}
