use openlaunch::app_error::AppError;
use openlaunch::milestone::{check_evidence_text, parse_milestone_db_id};

#[test]
fn parse_milestone_db_id_valid() {
    assert_eq!(parse_milestone_db_id("ms_1").unwrap(), 1);
    assert_eq!(parse_milestone_db_id("ms_001").unwrap(), 1);
    assert_eq!(parse_milestone_db_id("ms_42").unwrap(), 42);
    assert_eq!(parse_milestone_db_id("ms_999").unwrap(), 999);
}

#[test]
fn parse_milestone_db_id_zero() {
    assert_eq!(parse_milestone_db_id("ms_0").unwrap(), 0);
}

#[test]
fn parse_milestone_db_id_missing_prefix() {
    let result = parse_milestone_db_id("42");
    assert!(result.is_err());
    match result.unwrap_err() {
        AppError::BadRequest(msg) => {
            assert!(msg.contains("Invalid milestone ID format"));
        }
        other => panic!("Expected BadRequest, got {:?}", other),
    }
}

#[test]
fn parse_milestone_db_id_wrong_prefix() {
    let result = parse_milestone_db_id("milestone_1");
    assert!(result.is_err());
}

#[test]
fn parse_milestone_db_id_non_numeric_suffix() {
    let result = parse_milestone_db_id("ms_abc");
    assert!(result.is_err());
}

#[test]
fn parse_milestone_db_id_empty_suffix() {
    let result = parse_milestone_db_id("ms_");
    assert!(result.is_err());
}

#[test]
fn parse_milestone_db_id_empty_string() {
    let result = parse_milestone_db_id("");
    assert!(result.is_err());
}

#[test]
fn parse_milestone_db_id_negative_number_is_invalid() {
    let result = parse_milestone_db_id("ms_-1");
    assert!(result.is_err(), "negative milestone IDs should be rejected");
    match result.unwrap_err() {
        AppError::BadRequest(msg) => {
            assert!(msg.contains("Invalid milestone ID format"));
        }
        other => panic!("Expected BadRequest, got {:?}", other),
    }
}

#[test]
fn parse_milestone_db_id_overflow() {
    let result = parse_milestone_db_id("ms_99999999999999");
    assert!(result.is_err());
}

#[test]
fn parse_milestone_db_id_edges() {
    assert_eq!(parse_milestone_db_id("ms_+7").unwrap(), 7);
    assert_eq!(parse_milestone_db_id("ms_2147483647").unwrap(), 2147483647);
    assert!(parse_milestone_db_id("ms_2147483648").is_err());
    assert!(parse_milestone_db_id("ms_-0").is_ok());
    assert!(parse_milestone_db_id("ms_ 1").is_err());
    match parse_milestone_db_id("x") {
        Err(AppError::BadRequest(m)) => assert_eq!(m, "Invalid milestone ID format: x"),
        other => panic!("unexpected {:?}", other),
    }
}

#[test]
fn evidence_text_is_required() {
    match check_evidence_text("") {
        Err(AppError::BadRequest(m)) => assert_eq!(m, "Evidence text is required"),
        other => panic!("unexpected {:?}", other),
    }
    assert!(check_evidence_text("done").is_ok());
}
