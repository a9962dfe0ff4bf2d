use republisher::table::{Table, TableKey};
use republisher::text;

#[test]
fn white_space_is_trimmed() {
    for s in ["", "  ", "a", " a b ", "\u{2003}x\u{a0}\n", "\t\r\n", "\u{200b}z", "é "] {
        assert_eq!(text::trim(s), s.trim());
    }
}

#[test]
fn capitals_are_made_small() {
    for s in ["", "ABCxyzÄ", "@[`{", "TRUE"] {
        assert_eq!(text::lower(s), s.to_ascii_lowercase());
    }
}

#[test]
fn parts_are_joined() {
    assert_eq!(text::join(&vec![], ","), "");
    assert_eq!(text::join(&vec!["a".to_string()], ","), "a");
    assert_eq!(text::join(&vec!["a".to_string(), String::new(), "b".to_string()], ", "), "a, , b");
}

#[test]
fn numbers_are_written_in_decimal() {
    for n in [0, 9, 10, 105, 18446744073709551615] {
        assert_eq!(text::decimal_text(n), n.to_string());
    }
}

#[test]
fn prefixes_are_found() {
    assert!(text::starts_with("bridge0", "bridge"));
    assert!(!text::starts_with("brid", "bridge"));
    assert_eq!(text::strip_prefix("http://x", "http://"), Some("x"));
    assert_eq!(text::strip_prefix("x", "http://"), None);
}

#[test]
fn a_table_holds_one_value_for_each_key() {
    let mut t: Table<String, u64> = Table::new();
    t.insert("a".to_string(), 1);
    t.insert("b".to_string(), 2);
    t.insert("a".to_string(), 3);
    assert_eq!(t.len(), 2);
    assert_eq!(t.get(&"a".to_string()), Some(&3));
    t.remove(&"b".to_string());
    assert!(!t.contains(&"b".to_string()));
    assert!("x".to_string().same(&"x".to_string()));
    t.clear();
    assert_eq!(t.len(), 0);
}
