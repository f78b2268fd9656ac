use response_media::dispatch::{decode_decision, essence_of, DecodeOutcome};

fn table(entries: &[&str]) -> Vec<String> {
    entries.iter().map(|e| e.to_string()).collect()
}

#[test]
fn missing_content_type_fails_at_once() {
    let t = table(&["application/json", "application/xml"]);
    let r = decode_decision(&t, &None);
    assert!(matches!(r, DecodeOutcome::ExpectContentType));
    assert_eq!(r.error_text().unwrap(), "expected content type");
}

#[test]
fn missing_content_type_fails_with_empty_table_too() {
    let r = decode_decision(&table(&[]), &None);
    assert!(matches!(r, DecodeOutcome::ExpectContentType));
}

#[test]
fn declared_type_dispatches_to_matching_variant() {
    let t = table(&["application/json", "application/xml"]);
    let r = decode_decision(&t, &Some("application/json".to_string()));
    assert!(matches!(r, DecodeOutcome::Dispatch(0)));
    let r = decode_decision(&t, &Some("application/xml".to_string()));
    assert!(matches!(r, DecodeOutcome::Dispatch(1)));
}

#[test]
fn unsupported_type_fails_with_its_value() {
    let t = table(&["application/json", "application/xml"]);
    let r = decode_decision(&t, &Some("text/plain".to_string()));
    match &r {
        DecodeOutcome::NotSupported(ct) => assert_eq!(ct, "text/plain"),
        _ => panic!("expected an unsupported content type"),
    }
    assert_eq!(
        r.error_text().unwrap(),
        "content type not supported: text/plain"
    );
}

#[test]
fn parameters_do_not_affect_the_match() {
    let t = table(&["application/json"]);
    let r = decode_decision(&t, &Some("application/json; charset=utf-8".to_string()));
    assert!(matches!(r, DecodeOutcome::Dispatch(0)));
}

#[test]
fn declaration_order_breaks_ties() {
    let t = table(&["application/json", "application/json"]);
    let r = decode_decision(&t, &Some("application/json".to_string()));
    assert!(matches!(r, DecodeOutcome::Dispatch(0)));
    let t = table(&["text/html", "application/json", "application/json"]);
    let r = decode_decision(&t, &Some("application/json; q=1".to_string()));
    assert!(matches!(r, DecodeOutcome::Dispatch(1)));
}

#[test]
fn essence_strips_parameters_and_whitespace() {
    assert_eq!(essence_of("text/plain; charset=utf-8"), "text/plain");
    assert_eq!(essence_of("text/plain"), "text/plain");
    assert_eq!(essence_of(" text/plain ; charset=utf-8"), "text/plain");
    assert_eq!(essence_of("\ttext/plain\t"), "text/plain");
    assert_eq!(essence_of(""), "");
    assert_eq!(essence_of("; charset=utf-8"), "");
    assert_eq!(essence_of("   "), "");
}

#[test]
fn empty_table_supports_nothing() {
    let r = decode_decision(&table(&[]), &Some("text/plain".to_string()));
    match &r {
        DecodeOutcome::NotSupported(ct) => assert_eq!(ct, "text/plain"),
        _ => panic!("expected an unsupported content type"),
    }
}

#[test]
fn dispatch_outcome_has_no_error_text() {
    let t = table(&["application/json"]);
    let r = decode_decision(&t, &Some("application/json".to_string()));
    assert!(r.error_text().is_none());
}
