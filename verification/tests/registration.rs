use response_media::registry::Registry;

fn names(entries: &[&str]) -> Vec<String> {
    entries.iter().map(|e| e.to_string()).collect()
}

#[test]
fn registration_keeps_first_occurrence_order() {
    let mut reg = Registry::new();
    reg.register_all(&names(&["A", "B", "A", "C"]));
    assert_eq!(reg.schemas, names(&["A", "B", "C"]));
}

#[test]
fn registering_twice_changes_nothing() {
    let payloads = names(&["A", "B", "A"]);
    let mut reg = Registry::new();
    reg.register_all(&payloads);
    let after_once = reg.schemas.clone();
    reg.register_all(&payloads);
    assert_eq!(reg.schemas, after_once);
    reg.register_all(&payloads);
    assert_eq!(reg.schemas, after_once);
}

#[test]
fn contains_reports_membership() {
    let mut reg = Registry::new();
    assert!(!reg.contains_schema(&"A".to_string()));
    reg.register_schema(&"A".to_string());
    assert!(reg.contains_schema(&"A".to_string()));
    assert!(!reg.contains_schema(&"B".to_string()));
}
