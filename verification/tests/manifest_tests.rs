use icon_idents::assemble::GenError;
use icon_idents::manifest::build_enumeration;
use icon_idents::manifest::extract_keys;

const MANIFEST: &str = r#"{ "question": 63, "alarm-fill": 61705, "1-circle": 63425 }"#;

#[test]
fn extract_keys_reads_the_object_keys() {
    let ks = extract_keys(MANIFEST).unwrap();
    // serde_json's default map is ordered by key.
    assert_eq!(ks, vec!["1-circle", "alarm-fill", "question"]);
}

#[test]
fn malformed_json_is_a_parse_error() {
    assert_eq!(extract_keys("not json").err().unwrap(), GenError::SourceParse);
    assert_eq!(extract_keys("{ \"a\": ").err().unwrap(), GenError::SourceParse);
}

#[test]
fn non_object_root_is_a_parse_error() {
    assert_eq!(extract_keys("[1, 2, 3]").err().unwrap(), GenError::SourceParse);
    assert_eq!(extract_keys("42").err().unwrap(), GenError::SourceParse);
}

#[test]
fn builds_the_enumeration_from_the_manifest() {
    let e = build_enumeration(MANIFEST, Some("Bi"), false, "Question").unwrap();
    assert_eq!(e.len(), 3);
    assert_eq!(e.identifier(0).as_str(), "Bi1Circle");
    assert_eq!(e.identifier(1).as_str(), "AlarmFill");
    assert_eq!(e.identifier(2).as_str(), "Question");
    assert_eq!(e.default_raw_key().as_str(), "question");
    assert_eq!(e.raw_key_of("Bi1Circle").map(|k| k.as_str()), Some("1-circle"));
    assert_eq!(e.class_string(0), "bi-1-circle");
}

#[test]
fn build_reports_a_missing_default() {
    let r = build_enumeration(MANIFEST, Some("Bi"), false, "NotARealVariant");
    assert_eq!(r.err().unwrap(), GenError::DefaultNotFound(String::from("NotARealVariant")));
}

#[test]
fn build_reports_a_bad_manifest() {
    let r = build_enumeration("[]", Some("Bi"), false, "Question");
    assert_eq!(r.err().unwrap(), GenError::SourceParse);
}
