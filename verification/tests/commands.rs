use shell_commands::greeting::greet;
use shell_commands::opener::{open_web_url, outcome_response};

#[test]
fn greet_world_matches_template() {
    assert_eq!(greet("World"), "Hello, World! You've been greeted from Rust!");
}

#[test]
fn greet_embeds_name_verbatim() {
    let r = greet("Ada Lovelace");
    assert!(r.contains("Ada Lovelace"));
}

#[test]
fn greet_repeated_calls_agree() {
    assert_eq!(greet("twice"), greet("twice"));
}

#[test]
fn greet_empty_name_keeps_template() {
    let r = greet("");
    assert_eq!(r, "Hello, ! You've been greeted from Rust!");
    assert!(r.starts_with("Hello, "));
    assert!(r.ends_with("! You've been greeted from Rust!"));
}

#[test]
fn outcome_success_passes_through() {
    assert_eq!(outcome_response(Ok(())), Ok(()));
}

#[test]
fn outcome_failure_keeps_its_text() {
    let r = outcome_response(Err("boom".to_string()));
    assert_eq!(r, Err("boom".to_string()));
}

#[test]
fn outcome_blank_failure_gets_text() {
    match outcome_response(Err(String::new())) {
        Err(m) => assert!(!m.is_empty()),
        Ok(()) => panic!("expected a failure"),
    }
}

#[test]
fn open_missing_target_fails_with_text() {
    match open_web_url("/no/such/target/anywhere".to_string()) {
        Err(m) => assert!(!m.is_empty()),
        Ok(()) => panic!("expected the handler to refuse a missing target"),
    }
}

#[test]
fn open_failure_message_is_never_empty() {
    match open_web_url("http://example.invalid/".to_string()) {
        Ok(()) => {}
        Err(m) => assert!(!m.is_empty()),
    }
}
