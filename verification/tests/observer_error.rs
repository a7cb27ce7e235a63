use openlaunch::observer_error::ObserverError;

// ── Constructor tests ───────────────────────────────────────────

#[test]
fn skippable_constructor_from_str() {
    let err = ObserverError::skippable("duplicate event");
    assert!(matches!(err, ObserverError::Skippable(msg) if msg == "duplicate event"));
}

#[test]
fn skippable_constructor_from_string() {
    let err = ObserverError::skippable(&String::from("already processed"));
    assert!(matches!(err, ObserverError::Skippable(msg) if msg == "already processed"));
}

#[test]
fn retriable_constructor() {
    let err = ObserverError::retriable("timeout");
    assert!(matches!(err, ObserverError::Retriable(_)));
}

#[test]
fn fatal_constructor() {
    let err = ObserverError::fatal("schema mismatch");
    assert!(matches!(err, ObserverError::Fatal(_)));
}

// ── Categorization tests ────────────────────────────────────────

#[test]
fn is_skippable_returns_true_for_skippable() {
    let err = ObserverError::skippable("dup");
    assert!(err.is_skippable());
    assert!(!err.is_retriable());
    assert!(!err.is_fatal());
}

#[test]
fn is_retriable_returns_true_for_retriable() {
    let err = ObserverError::retriable("net error");
    assert!(!err.is_skippable());
    assert!(err.is_retriable());
    assert!(!err.is_fatal());
}

#[test]
fn is_fatal_returns_true_for_fatal() {
    let err = ObserverError::fatal("db gone");
    assert!(!err.is_skippable());
    assert!(!err.is_retriable());
    assert!(err.is_fatal());
}

// ── Text form tests ─────────────────────────────────────────────

#[test]
fn skippable_display_contains_message() {
    let err = ObserverError::skippable("test msg");
    let display = err.to_string();
    assert!(display.contains("Skippable"));
    assert!(display.contains("test msg"));
}

#[test]
fn retriable_display_contains_prefix() {
    let err = ObserverError::retriable("rpc timeout");
    let display = err.to_string();
    assert!(display.contains("Retriable"));
    assert!(display.contains("rpc timeout"));
}

#[test]
fn fatal_display_contains_prefix() {
    let err = ObserverError::fatal("broken");
    let display = err.to_string();
    assert!(display.contains("Fatal"));
    assert!(display.contains("broken"));
}

// ── Debug impl exists ───────────────────────────────────────────

#[test]
fn debug_format_does_not_panic() {
    let err = ObserverError::skippable("debug test");
    let _ = format!("{err:?}");
}

#[test]
fn text_form_is_kind_colon_message() {
    assert_eq!(ObserverError::skippable("a").to_string(), "Skippable: a");
    assert_eq!(ObserverError::retriable("b").to_string(), "Retriable: b");
    assert_eq!(ObserverError::fatal("c").to_string(), "Fatal: c");
    assert_eq!(ObserverError::fatal("c").message(), "c");
}

#[test]
fn constructors_keep_message_in_text_form() {
    assert_eq!(ObserverError::skippable("duplicate event").to_string(), "Skippable: duplicate event");
    assert_eq!(ObserverError::retriable("timeout").to_string(), "Retriable: timeout");
    assert_eq!(ObserverError::fatal("schema mismatch").to_string(), "Fatal: schema mismatch");
}
