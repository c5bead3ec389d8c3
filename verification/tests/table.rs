use ensure_update::instant::Instant;
use ensure_update::table::{Entry, StateMapping};

fn instant(nanosecond: i128) -> Instant {
    Instant::from_nanosecond(nanosecond).expect("instant in range")
}

fn row(name: &str, nanosecond: i128) -> Entry {
    Entry { name: name.to_string(), updated: instant(nanosecond) }
}

#[test]
fn new_table_knows_nothing() {
    let table = StateMapping::new();
    assert_eq!(table.get("foo"), None);
    assert_eq!(table.get(""), None);
    assert!(table.into_entries().is_empty());
}

#[test]
fn insert_then_get() {
    let mut table = StateMapping::new();
    table.insert("foo".to_string(), instant(10));
    table.insert("bar".to_string(), instant(20));
    assert_eq!(table.get("foo"), Some(instant(10)));
    assert_eq!(table.get("bar"), Some(instant(20)));
    assert_eq!(table.get("baz"), None);
    assert_eq!(table.get("fo"), None);
    assert_eq!(table.get("foo "), None);
}

#[test]
fn insert_replaces_the_row_of_the_same_name() {
    let mut table = StateMapping::new();
    table.insert("foo".to_string(), instant(10));
    table.insert("bar".to_string(), instant(20));
    table.insert("foo".to_string(), instant(30));
    assert_eq!(table.get("foo"), Some(instant(30)));
    assert_eq!(table.get("bar"), Some(instant(20)));
    let entries = table.into_entries();
    assert_eq!(entries.len(), 2);
}

#[test]
fn names_are_compared_exactly() {
    let mut table = StateMapping::new();
    table.insert("Foo".to_string(), instant(1));
    table.insert("foo".to_string(), instant(2));
    table.insert("fo\u{00f6}".to_string(), instant(3));
    assert_eq!(table.get("Foo"), Some(instant(1)));
    assert_eq!(table.get("foo"), Some(instant(2)));
    assert_eq!(table.get("fo\u{00f6}"), Some(instant(3)));
    assert_eq!(table.get("FOO"), None);
}

#[test]
fn from_entries_lets_the_later_row_win() {
    let table = StateMapping::from_entries(vec![
        row("foo", 1),
        row("bar", 2),
        row("foo", 3),
    ]);
    assert_eq!(table.get("foo"), Some(instant(3)));
    assert_eq!(table.get("bar"), Some(instant(2)));
    assert_eq!(table.into_entries().len(), 2);
}

#[test]
fn from_entries_of_nothing_is_empty() {
    let table = StateMapping::from_entries(Vec::new());
    assert_eq!(table.get("foo"), None);
    assert!(table.into_entries().is_empty());
}

#[test]
fn into_entries_lists_each_name_once() {
    let mut table = StateMapping::new();
    table.insert("a".to_string(), instant(1));
    table.insert("b".to_string(), instant(2));
    table.insert("c".to_string(), instant(3));
    table.insert("b".to_string(), instant(4));
    let mut entries = table.into_entries();
    entries.sort_by(|left, right| left.name.cmp(&right.name));
    let names: Vec<&str> = entries.iter().map(|entry| entry.name.as_str()).collect();
    assert_eq!(names, vec!["a", "b", "c"]);
    assert_eq!(entries[0].updated, instant(1));
    assert_eq!(entries[1].updated, instant(4));
    assert_eq!(entries[2].updated, instant(3));
}

#[test]
fn listing_and_rebuilding_gives_the_same_table() {
    let mut table = StateMapping::new();
    table.insert("foo".to_string(), instant(-5));
    table.insert("bar".to_string(), instant(1_790_000_000_000_000_001));
    table.insert("foo".to_string(), instant(7));
    let rebuilt = StateMapping::from_entries(table.into_entries());
    assert_eq!(rebuilt.get("foo"), Some(instant(7)));
    assert_eq!(rebuilt.get("bar"), Some(instant(1_790_000_000_000_000_001)));
    assert_eq!(rebuilt.get("baz"), None);
    assert_eq!(rebuilt.into_entries().len(), 2);
}
