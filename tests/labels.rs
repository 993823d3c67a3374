use resalloc_kubernetes::labels::{parse_pair, parse_pairs, LabelMap};

#[test]
fn well_formed_pair_splits_on_the_equals_sign() {
    assert_eq!(parse_pair("disk=ssd"), Some(("disk".to_string(), "ssd".to_string())));
    assert_eq!(parse_pair("k=v"), Some(("k".to_string(), "v".to_string())));
}

#[test]
fn malformed_pairs_are_dropped() {
    assert_eq!(parse_pair("novalue"), None);
    assert_eq!(parse_pair("="), None);
    assert_eq!(parse_pair("a=b=c"), None);
    assert_eq!(parse_pair("a="), None);
    assert_eq!(parse_pair("=b"), None);
    assert_eq!(parse_pair(""), None);
    let entries: Vec<String> = ["novalue", "=", "a=b=c", "ok=yes"].iter().map(|s| s.to_string()).collect();
    let m = parse_pairs(&entries);
    assert_eq!(m.entries, vec![("ok".to_string(), "yes".to_string())]);
}

#[test]
fn later_entries_win() {
    let entries: Vec<String> = ["a=1", "b=2", "a=3"].iter().map(|s| s.to_string()).collect();
    let m = parse_pairs(&entries);
    assert_eq!(m.entries.len(), 2);
    assert_eq!(m.get("a").as_deref(), Some("3"));
    assert_eq!(m.get("b").as_deref(), Some("2"));
    assert_eq!(m.get("c"), None);
}

#[test]
fn insert_replaces_in_place() {
    let mut m = LabelMap::new();
    m.insert("x".to_string(), "1".to_string());
    m.insert("y".to_string(), "2".to_string());
    m.insert("x".to_string(), "9".to_string());
    assert_eq!(
        m.entries,
        vec![("x".to_string(), "9".to_string()), ("y".to_string(), "2".to_string())]
    );
}
