use opensase_hr::table::Table;
use opensase_hr::text::{str_eq, str_le, to_chars, vec_contains_str};

#[test]
fn table_keeps_insertion_order_and_one_entry_per_key() {
    let mut t: Table<u32> = Table::new();
    assert!(t.is_empty());
    assert_eq!(t.len(), 0);
    t.insert("b".into(), 1);
    t.insert("a".into(), 2);
    t.insert("b".into(), 3);
    assert_eq!(t.len(), 2);
    assert!(!t.is_empty());
    assert_eq!(t.key_at(0), "b");
    assert_eq!(t.key_at(1), "a");
    assert_eq!(*t.value_at(0), 3);
    assert_eq!(t.get("a"), Some(&2));
    assert_eq!(t.get("c"), None);
    assert!(t.contains_key("b"));
    assert!(!t.contains_key(""));
    assert_eq!(t.position("a"), Some(1));
    assert_eq!(t.position("ab"), None);
}

#[test]
fn table_replaces_values_in_place() {
    let mut t: Table<String> = Table::new();
    t.insert("x".into(), "one".into());
    t.insert("y".into(), "two".into());
    assert_eq!(t.replace_value_at(0, "uno".into()), "one");
    t.set_value_at(1, "dos".into());
    assert_eq!(t.get("x").unwrap(), "uno");
    assert_eq!(t.get("y").unwrap(), "dos");
    assert_eq!(t.len(), 2);
}

#[test]
fn strings_compare_by_characters() {
    assert!(str_eq("", ""));
    assert!(str_eq("pop-é", "pop-é"));
    assert!(!str_eq("pop-a", "pop-b"));
    assert!(!str_eq("pop", "pop-a"));
    assert!(str_le("", "a"));
    assert!(str_le("a", "a"));
    assert!(str_le("a", "ab"));
    assert!(!str_le("ab", "a"));
    assert!(str_le("Z", "a"));
    assert!(!str_le("b", "a"));
    assert!(str_le("z", "é"));
    assert!(!str_le("é", "z"));
    assert_eq!(str_le("pop-B", "pop-C"), "pop-B" <= "pop-C");
}

#[test]
fn characters_and_membership() {
    assert_eq!(to_chars("a₦c"), vec!['a', '₦', 'c']);
    assert_eq!(to_chars(""), Vec::<char>::new());
    let v = vec!["pop-A".to_string(), "pop-B".to_string()];
    assert!(vec_contains_str(&v, "pop-B"));
    assert!(!vec_contains_str(&v, "pop"));
    assert!(!vec_contains_str(&Vec::new(), "pop"));
}
