use shaide::error::{GcpError, ShaideError};
use shaide::gcp::{
    after_embedding_failure, after_stream_failure, check_user_model_usage, describe, display_status,
    extract_response_error_body, map_chat_request_mapping_error, max_completion_tokens, truncate_error_body,
    try_extract_vertex_bad_request, BodyRead, DailyLimits, DailyUsage, EmbeddingFailure, RetryDecision,
    StreamCreationFailure, VertexErrorDetail,
};

#[test]
fn long_error_bodies_are_truncated_by_characters() {
    assert_eq!(truncate_error_body("short".to_owned()), "short");
    let exact: String = "é".repeat(4000);
    assert_eq!(truncate_error_body(exact.clone()), exact);
    let long: String = "é".repeat(4001);
    let cut = truncate_error_body(long);
    assert!(cut.ends_with("...[truncated]"));
    assert_eq!(cut.chars().count(), 4000 + "...[truncated]".len());
}

#[test]
fn error_bodies_are_described() {
    assert_eq!(extract_response_error_body(BodyRead::Text("  \n".to_owned())), "<empty body>");
    assert_eq!(extract_response_error_body(BodyRead::Text("oops".to_owned())), "oops");
    assert_eq!(
        extract_response_error_body(BodyRead::Failed("timeout".to_owned())),
        "<failed to read response body: timeout>"
    );
}

#[test]
fn statuses_are_written_with_their_reason_phrase() {
    assert_eq!(display_status(429).iter().collect::<String>(), "429 Too Many Requests");
    assert_eq!(display_status(599).iter().collect::<String>(), "599 <unknown status code>");
}

#[test]
fn rate_limits_are_retried_twice_then_reported() {
    assert!(matches!(after_stream_failure(StreamCreationFailure::TooManyRequests, 0), RetryDecision::Retry(1)));
    assert!(matches!(after_stream_failure(StreamCreationFailure::TooManyRequests, 1), RetryDecision::Retry(2)));
    assert!(matches!(
        after_stream_failure(StreamCreationFailure::TooManyRequests, 2),
        RetryDecision::Fail(GcpError::MaxRetriesHaveBeenAchieved { service }) if service == "chat completion"
    ));
    assert!(matches!(
        after_embedding_failure(EmbeddingFailure::TooManyRequests, 2),
        RetryDecision::Fail(GcpError::MaxRetriesHaveBeenAchieved { service }) if service == "embedding"
    ));
    assert!(matches!(after_embedding_failure(EmbeddingFailure::TooManyRequests, 0), RetryDecision::Retry(1)));
}

#[test]
fn stream_creation_failures_are_described() {
    let bad_request = StreamCreationFailure::InvalidStatusCode {
        status_code: 400,
        url: "https://u".to_owned(),
        body: "b".to_owned(),
        vertex_invalid_argument: Some("bad arg".to_owned()),
    };
    assert!(matches!(after_stream_failure(bad_request, 0), RetryDecision::Fail(GcpError::BadRequest(m)) if m == "bad arg"));
    let server = StreamCreationFailure::InvalidStatusCode {
        status_code: 503,
        url: "https://u".to_owned(),
        body: "b".to_owned(),
        vertex_invalid_argument: None,
    };
    match after_stream_failure(server, 0) {
        RetryDecision::Fail(GcpError::UnexpectedResponse { status_code, response_body, service }) => {
            assert_eq!(status_code, 503);
            assert_eq!(response_body.text, "Status: 503 Service Unavailable, URL: https://u, Body: b");
            assert_eq!(service, "chat");
        },
        _ => panic!("expected an unexpected response"),
    }
    match after_stream_failure(StreamCreationFailure::Other("eof".to_owned()), 0) {
        RetryDecision::Fail(GcpError::UnexpectedResponse { status_code, response_body, .. }) => {
            assert_eq!(status_code, 502);
            assert_eq!(response_body.text, "Unhandled event source error: eof");
        },
        _ => panic!("expected an unexpected response"),
    }
}

#[test]
fn vertex_invalid_arguments_are_recognized() {
    let detail = |status: &str| Some(VertexErrorDetail { message: "m".to_owned(), status: status.to_owned() });
    assert_eq!(try_extract_vertex_bad_request(detail("INVALID_ARGUMENT")).as_deref(), Some("m"));
    assert_eq!(try_extract_vertex_bad_request(detail("NOT_FOUND")), None);
    assert_eq!(try_extract_vertex_bad_request(None), None);
}

#[test]
fn daily_limits_are_reached_at_equality() {
    let limits = DailyLimits {
        model_name: "m".to_owned(),
        daily_input_token_limit: Some(100),
        daily_output_token_limit: None,
    };
    let usage = |i, o| Some(DailyUsage { total_input_token_count: i, total_output_token_count: o });
    assert!(check_user_model_usage(&limits, None).is_ok());
    assert!(check_user_model_usage(&limits, usage(99, 1_000_000)).is_ok());
    assert!(matches!(
        check_user_model_usage(&limits, usage(100, 0)),
        Err(ShaideError::ModelUsageLimitReached(m)) if m == "Model usage reached on model: m"
    ));
}

#[test]
fn completion_budgets_are_capped_by_the_model() {
    assert_eq!(max_completion_tokens(Some(100), 50), 50);
    assert_eq!(max_completion_tokens(Some(10), 50), 10);
    assert_eq!(max_completion_tokens(None, 50), 50);
}

#[test]
fn mapping_failures_become_bad_requests() {
    assert!(matches!(
        map_chat_request_mapping_error(ShaideError::BadRequest("r".to_owned())),
        GcpError::BadRequest(m) if m == "r"
    ));
    assert!(matches!(
        map_chat_request_mapping_error(ShaideError::InternalServerError("boom".to_owned())),
        GcpError::BadRequest(m) if m == "Internal server error: boom"
    ));
    assert_eq!(describe(&ShaideError::Unauthorized("x".to_owned())), "Unauthorized");
    assert_eq!(describe(&ShaideError::GcpError(GcpError::BadRequest("q".to_owned()))), "Bad request: q");
}
