use shaide::error_patch::{add_openai_error, should_rewrite, JsonField};
use shaide::health::{cpu_summary, HealthState, Version};
use shaide::logs::{log_file_selected, log_query_range};
use shaide::error::ShaideError;

#[test]
fn only_json_or_text_error_answers_are_rewritten() {
    assert!(should_rewrite(404, None));
    assert!(should_rewrite(500, Some("application/json; charset=utf-8")));
    assert!(should_rewrite(400, Some("text/plain")));
    assert!(!should_rewrite(400, Some("text/html")));
    assert!(!should_rewrite(200, None));
    assert!(!should_rewrite(302, Some("application/json")));
}

#[test]
fn error_patches_take_the_first_available_message() {
    let p = add_openai_error(400, JsonField::Text("m".to_owned()), JsonField::Text("r".to_owned()), "raw");
    assert_eq!(p.message, "m");
    assert_eq!(p.legacy_field, None);
    assert_eq!(p.error_type, "invalid_request_error");

    let p = add_openai_error(503, JsonField::Absent, JsonField::Text("r".to_owned()), "raw");
    assert_eq!(p.message, "r");
    assert_eq!(p.legacy_field, None);

    let p = add_openai_error(429, JsonField::Absent, JsonField::Absent, "  too many  ");
    assert_eq!(p.message, "too many");
    assert_eq!(p.legacy_field, Some("reason"));
    assert_eq!(p.error_type, "rate_limit_error");

    let p = add_openai_error(404, JsonField::NotText, JsonField::Text("r".to_owned()), "");
    assert_eq!(p.message, "Not Found");

    let p = add_openai_error(404, JsonField::Absent, JsonField::Absent, " ");
    assert_eq!(p.message, "Not Found");
    assert_eq!(p.legacy_field, Some("message"));
}

#[test]
fn health_reports_the_build_and_processors() {
    let v = Version::new();
    assert_eq!(v.build_date, "VERGEN_BUILD_DATE");
    assert_eq!(v.git_describe, "VERGEN_GIT_DESCRIBE");
    assert_eq!(cpu_summary(vec![]), ("unknown".to_owned(), 0));
    assert_eq!(cpu_summary(vec!["A".to_owned(), "B".to_owned()]), ("A".to_owned(), 2));
    let h = HealthState::new("x86_64".to_owned());
    assert_eq!(h.arch, "x86_64");
    assert_eq!(h.version.git_sha, "VERGEN_GIT_SHA");
}

#[test]
fn log_files_are_selected_by_their_day() {
    let (start, end) = log_query_range("2025-01-02", "2025-01-05").unwrap();
    assert!(log_file_selected("2025-01-02", start, end));
    assert!(log_file_selected("2025-01-05", start, end));
    assert!(!log_file_selected("2025-01-06", start, end));
    assert!(!log_file_selected("2024-12-31", start, end));
    assert!(!log_file_selected("shaide.log", start, end));
    assert!(matches!(log_query_range("yesterday", "2025-01-05"), Err(ShaideError::BadRequest(m)) if m == "Could not parse start_date"));
    assert!(matches!(log_query_range("2025-01-05", "soon"), Err(ShaideError::BadRequest(m)) if m == "Could not parse end_date"));
}

fn rewritten(status: u16, content_type: Option<&str>, body: &str) -> serde_json::Value {
    let bytes = shaide::error_patch::rewrite_error_body(status, content_type, body.as_bytes()).expect("rewritten");
    serde_json::from_slice(&bytes).unwrap()
}

#[test]
fn error_bodies_are_rewritten_only_for_errors_in_text() {
    assert!(shaide::error_patch::rewrite_error_body(200, Some("application/json"), b"{}").is_none());
    assert!(shaide::error_patch::rewrite_error_body(404, Some("text/html"), b"<p>").is_none());
    assert!(shaide::error_patch::rewrite_error_body(404, None, b"x").is_some());
}

#[test]
fn plain_text_error_gets_an_openai_error_and_a_legacy_field() {
    let v = rewritten(404, Some("text/plain"), "  not found here \n");
    assert_eq!(v["message"], "not found here");
    assert_eq!(v["error"]["message"], "not found here");
    assert_eq!(v["error"]["type"], shaide::error::openai_error_type(404));
    assert!(v["error"]["param"].is_null());
    assert!(v["error"]["code"].is_null());
    assert!(v.get("reason").is_none());

    let v = rewritten(503, Some("application/json"), r#"{"detail":"down"}"#);
    assert_eq!(v["detail"], "down");
    assert_eq!(v["reason"], r#"{"detail":"down"}"#);
    assert_eq!(v["error"]["message"], r#"{"detail":"down"}"#);
}

#[test]
fn existing_error_objects_and_messages_are_kept() {
    let v = rewritten(400, Some("application/json"), r#"{"error":{"message":"bad"},"x":1}"#);
    let expected: serde_json::Value = serde_json::from_str(r#"{"error":{"message":"bad"},"x":1}"#).unwrap();
    assert_eq!(v, expected);

    let v = rewritten(400, Some("application/json"), r#"{"message":"m"}"#);
    assert_eq!(v["message"], "m");
    assert_eq!(v["error"]["message"], "m");

    let v = rewritten(429, Some("application/json"), r#"{"reason":"slow down"}"#);
    assert_eq!(v["reason"], "slow down");
    assert_eq!(v["error"]["message"], "slow down");
    assert!(v.get("message").is_none());

    let v = rewritten(500, None, "");
    assert_eq!(v["reason"], "Internal Server Error");
}
