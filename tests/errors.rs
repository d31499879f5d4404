use sample_rust_project::errors::CoreError;

#[test]
fn not_found_renders_user_42() {
    let e = CoreError::NotFound("user 42".into());
    assert_eq!(e.to_string(), "Not found: user 42");
}

#[test]
fn invalid_input_keeps_empty_message() {
    let e = CoreError::InvalidInput("".into());
    assert_eq!(e.to_string(), "Invalid input: ");
}

#[test]
fn not_found_with_empty_message() {
    let e = CoreError::NotFound(String::new());
    assert_eq!(e.to_string(), "Not found: ");
}

#[test]
fn invalid_input_renders_message_verbatim() {
    let e = CoreError::InvalidInput("  age must be >= 0\n".into());
    assert_eq!(e.to_string(), "Invalid input:   age must be >= 0\n");
}

#[test]
fn message_with_unicode_is_kept() {
    let e = CoreError::NotFound("clé \"é\"".into());
    assert_eq!(e.to_string(), "Not found: clé \"é\"");
}

#[test]
fn distinct_messages_render_differently() {
    let a = CoreError::NotFound("a".into());
    let b = CoreError::NotFound("b".into());
    assert_ne!(a.to_string(), b.to_string());
    let c = CoreError::InvalidInput("a".into());
    let d = CoreError::InvalidInput("a ".into());
    assert_ne!(c.to_string(), d.to_string());
}

#[test]
fn kinds_render_differently_for_same_message() {
    let a = CoreError::NotFound("x".into());
    let b = CoreError::InvalidInput("x".into());
    assert_ne!(a.to_string(), b.to_string());
}
