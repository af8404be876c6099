use icon_idents::synth::synthesize;
use icon_idents::synth::SynthError;

#[test]
fn digit_leading_key_takes_fallback_prefix() {
    let r = synthesize("1-circle", Some("Bi"), false);
    assert_eq!(r, Ok(String::from("Bi1Circle")));
}

#[test]
fn plain_key_needs_no_prefix() {
    let r = synthesize("alarm-fill", Some("Bi"), false);
    assert_eq!(r, Ok(String::from("AlarmFill")));
}

#[test]
fn always_prefix_prepends() {
    let r = synthesize("alarm-fill", Some("Bi"), true);
    assert_eq!(r, Ok(String::from("BiAlarmFill")));
    let r = synthesize("x", Some("Bi"), true);
    assert_eq!(r, Ok(String::from("BiX")));
}

#[test]
fn empty_prefix_acts_like_an_absent_one() {
    assert_eq!(synthesize("alarm-fill", Some(""), true), Ok(String::from("AlarmFill")));
    assert_eq!(synthesize("1a", Some(""), false), Err(SynthError::LeadingDigit));
}

#[test]
fn digit_leading_prefix_is_rejected() {
    let r = synthesize("alarm-fill", Some("1bad"), false);
    assert_eq!(r, Err(SynthError::PrefixLeadingDigit));
    let r = synthesize("alarm-fill", Some("1bad"), true);
    assert_eq!(r, Err(SynthError::PrefixLeadingDigit));
}

#[test]
fn empty_key_keeps_the_seed() {
    assert_eq!(synthesize("", Some("Bi"), true), Ok(String::from("Bi")));
    assert_eq!(synthesize("", Some("Bi"), false), Err(SynthError::EmptyIdentifier));
    assert_eq!(synthesize("", None, false), Err(SynthError::EmptyIdentifier));
}

#[test]
fn all_punctuation_key_shrinks_to_the_prefix() {
    assert_eq!(synthesize("--.--", Some("Bi"), true), Ok(String::from("Bi")));
    assert_eq!(synthesize("--.--", Some("Bi"), false), Err(SynthError::EmptyIdentifier));
    assert_eq!(synthesize("--.--", None, true), Err(SynthError::EmptyIdentifier));
}

#[test]
fn digit_leading_result_without_prefix_is_rejected() {
    assert_eq!(synthesize("1a", None, false), Err(SynthError::LeadingDigit));
    assert_eq!(synthesize("1a", None, true), Err(SynthError::LeadingDigit));
}

#[test]
fn consecutive_punctuation_capitalizes_once() {
    assert_eq!(synthesize("a--b", None, false), Ok(String::from("AB")));
    assert_eq!(synthesize("a-_.b", None, false), Ok(String::from("AB")));
}

#[test]
fn whitespace_capitalizes_the_next_character() {
    assert_eq!(synthesize("hello world", None, false), Ok(String::from("HelloWorld")));
    assert_eq!(synthesize("a\tb\nc", None, false), Ok(String::from("ABC")));
}

#[test]
fn removed_character_that_is_neither_punctuation_nor_whitespace_keeps_the_case() {
    // A non-ASCII letter is dropped but does not ask for capitalization.
    assert_eq!(synthesize("a\u{e9}b", None, false), Ok(String::from("Ab")));
}

#[test]
fn only_alphanumerics_survive() {
    let r = synthesize("a!b c#9", None, false).unwrap();
    assert!(r.chars().all(|c| c.is_ascii_alphanumeric()));
    assert_eq!(r, "ABC9");
}

#[test]
fn digit_after_punctuation_stays_a_digit() {
    assert_eq!(synthesize("a-9b", None, false), Ok(String::from("A9b")));
}

#[test]
fn output_is_a_fixed_point_of_synthesis() {
    let first = synthesize("1-circle", Some("Bi"), false).unwrap();
    let again = synthesize(first.as_str(), Some("Bi"), false).unwrap();
    assert_eq!(first, again);

    let first = synthesize("alarm-fill", Some("Bi"), true).unwrap();
    let again = synthesize(first.as_str(), Some("Bi"), false).unwrap();
    assert_eq!(first, again);
}
