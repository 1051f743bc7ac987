use udev::Entry;
use udev::EntryList;

fn entry(name: &str, value: Option<&str>) -> Entry {
    Entry { name: name.to_string(), value: value.map(|v| v.to_string()) }
}

#[test]
fn entry_exposes_name_and_value() {
    let e = entry("DEVTYPE", Some("disk"));
    assert_eq!(e.name(), "DEVTYPE");
    assert_eq!(e.value(), "disk");
}

#[test]
fn entry_without_value_reads_empty() {
    let e = entry("queue_depth", None);
    assert_eq!(e.value(), "");
}

#[test]
fn next_walks_the_entries_in_order_and_exhausts() {
    let mut l = EntryList::new(vec![entry("A", Some("1")), entry("B", Some("2"))]);
    let first = l.next().unwrap();
    assert_eq!(first.name(), "A");
    assert_eq!(first.value(), "1");
    let second = l.next().unwrap();
    assert_eq!(second.name(), "B");
    assert_eq!(second.value(), "2");
    assert!(l.next().is_none());
    assert!(l.next().is_none());
}

#[test]
fn empty_list_yields_nothing() {
    let mut l = EntryList::new(vec![]);
    assert!(l.next().is_none());
}

#[test]
fn two_cursors_are_independent_and_equal() {
    let make = || EntryList::new(vec![entry("A", Some("1")), entry("B", None)]);
    let mut one = make();
    let mut two = make();
    // Stepping one cursor does not move the other.
    let a = one.next().unwrap();
    let b = two.next().unwrap();
    assert_eq!(a.name(), b.name());
    assert_eq!(a.value(), b.value());
    let a = one.next().unwrap();
    let b = two.next().unwrap();
    assert_eq!(a.name(), b.name());
    assert_eq!(a.value(), b.value());
    assert!(one.next().is_none());
    assert!(two.next().is_none());
}

#[test]
fn find_value_takes_the_first_match() {
    let l = EntryList::new(vec![
        entry("K", Some("first")),
        entry("other", Some("x")),
        entry("K", Some("second")),
    ]);
    assert_eq!(l.find_value("K"), Some("first".to_string()));
    assert_eq!(l.find_value("other"), Some("x".to_string()));
    assert_eq!(l.find_value("missing"), None);
}

#[test]
fn find_value_reads_a_missing_value_as_empty() {
    let l = EntryList::new(vec![entry("bare", None)]);
    assert_eq!(l.find_value("bare"), Some(String::new()));
}

#[test]
fn find_value_searches_from_the_cursor() {
    let mut l = EntryList::new(vec![entry("K", Some("first")), entry("K", Some("second"))]);
    l.next();
    assert_eq!(l.find_value("K"), Some("second".to_string()));
}
