//! The message error: what it carries and what it equals.

use format_mode::Error;

#[test]
fn custom_error_carries_the_text_of_a_string() {
    let error = Error::custom("unexpected token");
    assert_eq!(error.description(), "unexpected token");
    assert_eq!(error.to_string(), "unexpected token".to_string());
}

#[test]
fn custom_error_carries_what_displaying_gives() {
    assert_eq!(Error::custom(&42u8).description(), "42");
    assert_eq!(Error::custom(&-7i64).description(), "-7");
    assert_eq!(Error::custom(&'c').description(), "c");
    assert_eq!(Error::custom(&format!("{} of {}", 1, 2)).description(), "1 of 2");
}

#[test]
fn custom_error_may_be_empty() {
    let error = Error::custom("");
    assert_eq!(error.description(), "");
    assert!(error == *"");
    assert!(error != *" ");
}

#[test]
fn error_equals_its_message_and_no_other() {
    let error = Error::custom("boom");
    assert!(error == *"boom");
    assert!(error != *"Boom");
    assert!(error != *"boom ");
    assert!(error != *"");
}

#[test]
fn error_keeps_text_beyond_ascii() {
    let error = Error::custom("größe ≠ 3");
    assert!(error == *"größe ≠ 3");
    assert_eq!(error.description().chars().count(), 9);
}

#[test]
fn cloned_error_carries_the_same_message() {
    let error = Error::custom("first");
    let copy = error.clone();
    assert_eq!(copy.description(), error.description());
    assert!(copy == *"first");
}

#[test]
fn error_can_be_shown_for_debugging() {
    let shown = format!("{:?}", Error::custom("seen"));
    assert!(shown.contains("seen"));
}
