use openlaunch::app_error::AppError;
use openlaunch::metadata::{CreateMetadataRequest, MilestoneInput};

fn valid_request() -> CreateMetadataRequest {
    CreateMetadataRequest {
        name: "TestToken".to_string(),
        symbol: "TEST".to_string(),
        image_uri: "placeholder".to_string(),
        category: "DeFi".to_string(),
        homepage: None,
        twitter: None,
        telegram: None,
        discord: None,
        milestones: vec![
            MilestoneInput {
                order: 1,
                title: "MVP".into(),
                description: "Build".into(),
                fund_allocation_percent: 50,
            },
            MilestoneInput {
                order: 2,
                title: "Launch".into(),
                description: "Ship".into(),
                fund_allocation_percent: 50,
            },
        ],
    }
}

const BUCKET: &str = "https://img.example.com/";

fn uploaded_request() -> CreateMetadataRequest {
    let mut req = valid_request();
    req.image_uri = format!("{BUCKET}abc.png");
    req
}

fn message(r: Result<(), AppError>) -> String {
    match r {
        Err(AppError::BadRequest(m)) => m,
        other => panic!("expected a bad request, got {:?}", other),
    }
}

#[test]
fn name_too_short() {
    let mut req = valid_request();
    req.name = "A".into();
    assert!(req.validate("").is_err());
}

#[test]
fn name_too_long() {
    let mut req = valid_request();
    req.name = "A".repeat(51);
    assert!(req.validate("").is_err());
}

#[test]
fn symbol_lowercase_rejected() {
    let mut req = valid_request();
    req.symbol = "test".into();
    assert!(req.validate("").is_err());
}

#[test]
fn url_without_https_rejected() {
    let mut req = valid_request();
    req.twitter = Some("http://twitter.com".into());
    assert!(req.validate("").is_err());
}

#[test]
fn milestones_must_sum_100() {
    let mut req = valid_request();
    req.milestones[0].fund_allocation_percent = 60;
    assert!(req.validate("").is_err());
}

#[test]
fn too_few_milestones() {
    let mut req = valid_request();
    req.milestones = vec![MilestoneInput {
        order: 1,
        title: "Only".into(),
        description: "One".into(),
        fund_allocation_percent: 100,
    }];
    assert!(req.validate("").is_err());
}

#[test]
fn too_many_milestones() {
    let mut req = valid_request();
    req.milestones = (1..=7)
        .map(|i| MilestoneInput {
            order: i,
            title: format!("M{i}"),
            description: format!("D{i}"),
            fund_allocation_percent: if i <= 2 { 15 } else { 14 },
        })
        .collect();
    assert!(req.validate("").is_err());
}

#[test]
fn empty_milestone_title_rejected() {
    let mut req = valid_request();
    req.milestones[0].title = "".into();
    assert!(req.validate("").is_err());
}

#[test]
fn valid_https_urls_accepted() {
    let mut req = valid_request();
    req.homepage = Some("https://example.com".into());
    req.twitter = Some("https://twitter.com/test".into());
    req.discord = Some("https://discord.gg/test".into());
    // With no image bucket configured the image check refuses the request,
    // but the links themselves pass.
    assert_eq!(message(req.validate("")), "image_uri must be a valid uploaded image URL");
    req.image_uri = format!("{BUCKET}x.png");
    assert!(req.validate(BUCKET).is_ok());
}

// ── each refusal, with an uploaded image ────────────────────────

#[test]
fn valid_request_with_uploaded_image_passes() {
    assert!(uploaded_request().validate(BUCKET).is_ok());
}

#[test]
fn each_check_reports_its_message() {
    let mut r = uploaded_request();
    r.name = "A".repeat(51);
    assert_eq!(message(r.validate(BUCKET)), "name must be 2-50 characters");

    let mut r = uploaded_request();
    r.symbol = "ABCDEFGHIJK".into();
    assert_eq!(message(r.validate(BUCKET)), "symbol must be 2-10 characters");

    let mut r = uploaded_request();
    r.symbol = "AB-C".into();
    assert_eq!(message(r.validate(BUCKET)), "symbol must be uppercase letters and digits only");

    let mut r = uploaded_request();
    r.category = "".into();
    assert_eq!(message(r.validate(BUCKET)), "category must be 1-50 characters");

    let mut r = uploaded_request();
    r.telegram = Some("t.me/x".into());
    assert_eq!(message(r.validate(BUCKET)), "telegram must start with https://");

    let mut r = uploaded_request();
    r.milestones.truncate(1);
    assert_eq!(message(r.validate(BUCKET)), "Must have 2-6 milestones");

    let mut r = uploaded_request();
    r.milestones[1].fund_allocation_percent = 40;
    assert_eq!(message(r.validate(BUCKET)), "Milestone allocations must sum to 100, got 90");

    let mut r = uploaded_request();
    r.milestones[1].description = "".into();
    assert_eq!(message(r.validate(BUCKET)), "Milestone description is required");

    let mut r = uploaded_request();
    r.milestones[0].fund_allocation_percent = 101;
    r.milestones[1].fund_allocation_percent = -1;
    assert_eq!(message(r.validate(BUCKET)), "Milestone allocation must be 1-100");
}

#[test]
fn name_length_is_counted_in_bytes() {
    let mut r = uploaded_request();
    r.name = "é".into(); // two bytes
    assert!(r.validate(BUCKET).is_ok());
}

#[test]
fn allocation_overflow_is_detected_only_when_the_sum_is_reached() {
    let mut r = uploaded_request();
    r.milestones[0].fund_allocation_percent = i32::MAX;
    r.milestones[1].fund_allocation_percent = 1;
    assert!(r.allocation_sum_overflows(BUCKET));
    // An earlier refusal means the sum is never computed.
    r.name = "A".into();
    assert!(!r.allocation_sum_overflows(BUCKET));
    // A sum that fits, even far from 100, is no overflow.
    let mut r = uploaded_request();
    r.milestones[0].fund_allocation_percent = i32::MAX - 1;
    r.milestones[1].fund_allocation_percent = 1;
    assert!(!r.allocation_sum_overflows(BUCKET));
    assert_eq!(message(r.validate(BUCKET)), format!("Milestone allocations must sum to 100, got {}", i32::MAX));
    assert!(!uploaded_request().allocation_sum_overflows(BUCKET));
}
