use icon_idents::assemble::assemble;
use icon_idents::assemble::GenError;
use icon_idents::synth::SynthError;

fn keys(ks: &[&str]) -> Vec<String> {
    ks.iter().map(|k| String::from(*k)).collect()
}

#[test]
fn assembles_and_resolves_the_default() {
    let e = assemble(keys(&["1-circle", "alarm-fill", "question"]), Some("Bi"), false, "Question")
        .unwrap();
    assert_eq!(e.len(), 3);
    assert_eq!(e.identifier(0).as_str(), "Bi1Circle");
    assert_eq!(e.identifier(1).as_str(), "AlarmFill");
    assert_eq!(e.identifier(2).as_str(), "Question");
    assert_eq!(e.raw_key(0).as_str(), "1-circle");
    assert_eq!(e.default_index(), 2);
    assert_eq!(e.default_identifier().as_str(), "Question");
    assert_eq!(e.default_raw_key().as_str(), "question");
}

#[test]
fn enumerates_all_identifiers_in_order() {
    let e = assemble(keys(&["1-circle", "alarm-fill", "question"]), Some("Bi"), false, "Question")
        .unwrap();
    assert_eq!(e.identifiers(), &vec!["Bi1Circle", "AlarmFill", "Question"]);
}

#[test]
fn reverse_lookup_returns_the_raw_key() {
    let e = assemble(keys(&["1-circle", "question"]), Some("Bi"), false, "Question").unwrap();
    assert_eq!(e.raw_key_of("Bi1Circle").map(|k| k.as_str()), Some("1-circle"));
    assert_eq!(e.raw_key_of("Question").map(|k| k.as_str()), Some("question"));
    assert_eq!(e.raw_key_of("NotThere"), None);
}

#[test]
fn class_string_uses_the_raw_key() {
    let e = assemble(keys(&["1-circle", "question"]), Some("Bi"), false, "Question").unwrap();
    assert_eq!(e.class_string(0), "bi-1-circle");
    assert_eq!(e.class_string(1), "bi-question");
}

#[test]
fn duplicate_identifiers_are_rejected() {
    let r = assemble(keys(&["a-b", "question", "a.b"]), Some("Bi"), false, "Question");
    assert_eq!(r.err().unwrap(), GenError::DuplicateIdentifier(String::from("AB")));
}

#[test]
fn unknown_default_is_rejected() {
    let r = assemble(keys(&["question"]), Some("Bi"), false, "NotARealVariant");
    assert_eq!(r.err().unwrap(), GenError::DefaultNotFound(String::from("NotARealVariant")));
}

#[test]
fn default_is_matched_by_synthesized_name_not_raw_key() {
    // "question" is a raw key, not a synthesized identifier.
    let r = assemble(keys(&["question"]), Some("Bi"), false, "question");
    assert_eq!(r.err().unwrap(), GenError::DefaultNotFound(String::from("question")));
}

#[test]
fn digit_leading_prefix_is_rejected_at_setup() {
    let r = assemble(keys(&[]), Some("1bad"), false, "Question");
    assert_eq!(r.err().unwrap(), GenError::PrefixLeadingDigit);
    let r = assemble(keys(&["question"]), Some("1bad"), false, "Question");
    assert_eq!(r.err().unwrap(), GenError::PrefixLeadingDigit);
}

#[test]
fn a_key_that_synthesizes_to_nothing_is_reported() {
    let r = assemble(keys(&["question", "---"]), None, false, "Question");
    assert_eq!(
        r.err().unwrap(),
        GenError::Synthesis(String::from("---"), SynthError::EmptyIdentifier)
    );
}

#[test]
fn a_key_left_digit_leading_is_reported() {
    let r = assemble(keys(&["question", "1a"]), None, false, "Question");
    assert_eq!(r.err().unwrap(), GenError::Synthesis(String::from("1a"), SynthError::LeadingDigit));
}
