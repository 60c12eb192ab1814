use shaide::error::{AzureError, GcpError, ShaideError, ShaideProviderError, UpstreamBody};
use shaide::responses::{
    invalid_encrypted_content_error, parse_upstream_event, platform_of, provider_http_error, provider_request_error,
    response_stream_step, response_target, response_usage, Platform, ResponseStreamInput, INVALID_ENCRYPTED_CONTENT,
};

#[test]
fn upstream_event_is_forwarded_verbatim() {
    let data = r#"{"type":"response.completed","sequence_number":7,"response":{"id":"resp_1","end_turn":true,"usage":{"input_tokens":120,"output_tokens":30,"total_tokens":150}}}"#;
    let event = parse_upstream_event("response.completed", data).unwrap();
    assert_eq!(event.event_type, "response.completed");
    assert_eq!(event.data, data);
    let usage = event.usage().unwrap();
    assert_eq!(usage.prompt_tokens, 120);
    assert_eq!(usage.completion_tokens, 30);
    assert_eq!(usage.total_tokens, 150);
}

#[test]
fn unknown_event_types_are_not_rejected() {
    let data = r#"{"type":"response.some_future_event.delta","delta":"x"}"#;
    let event = parse_upstream_event("message", data).unwrap();
    assert_eq!(event.event_type, "response.some_future_event.delta");
    assert!(event.usage().is_none());
}

#[test]
fn sse_event_name_is_used_when_type_is_missing() {
    let event = parse_upstream_event("response.in_progress", "{}").unwrap();
    assert_eq!(event.event_type, "response.in_progress");
    assert!(parse_upstream_event("message", "{}").is_err());
}

#[test]
fn invalid_encrypted_content_gets_an_actionable_message() {
    let body = r#"{"error":{"code":"invalid_encrypted_content","message":"The encrypted content for item cmp_1 could not be verified.","type":"invalid_request_error","param":null}}"#;
    let Some(ShaideError::RequestRejection { status_code, message, code }) = invalid_encrypted_content_error(400, body)
    else {
        panic!("expected a request rejection");
    };
    assert_eq!(status_code, 400);
    assert_eq!(code, INVALID_ENCRYPTED_CONTENT);
    assert!(message.contains("Start a new conversation"));
    assert!(message.contains("cmp_1 could not be verified"));
}

#[test]
fn other_provider_errors_are_left_alone() {
    let body = r#"{"error":{"code":"context_length_exceeded","message":"too long"}}"#;
    assert!(invalid_encrypted_content_error(400, body).is_none());
    assert!(invalid_encrypted_content_error(400, "not json").is_none());
}

#[test]
fn usage_is_missing_without_token_counts() {
    assert!(response_usage(r#"{"usage":null}"#).is_none());
    assert!(response_usage("{}").is_none());
}

#[test]
fn usage_total_saturates_and_counts_must_fit_32_bits() {
    let big = response_usage(r#"{"usage":{"input_tokens":4294967295,"output_tokens":5}}"#).unwrap();
    assert_eq!(big.total_tokens, u32::MAX);
    assert!(response_usage(r#"{"usage":{"input_tokens":4294967296,"output_tokens":5}}"#).is_none());
    assert!(response_usage(r#"{"usage":{"input_tokens":-1,"output_tokens":5}}"#).is_none());
}

#[test]
fn events_without_json_or_name_are_refused_with_a_reason() {
    let err = parse_upstream_event("message", "not json").unwrap_err();
    assert!(err.starts_with("Could not parse Responses API event: "));
    assert_eq!(parse_upstream_event("", "{}").unwrap_err(), "Responses API event has no type");
}

#[test]
fn platforms_are_dispatched_by_name() {
    assert_eq!(platform_of(Some("vertex")).unwrap(), Platform::Vertex);
    assert_eq!(platform_of(Some("foundry")).unwrap(), Platform::Foundry);
    assert_eq!(platform_of(Some("axem")).unwrap(), Platform::Axem);
    assert!(matches!(platform_of(Some("other")), Err(ShaideError::UnsupportedPlatform(p)) if p == "other"));
    assert!(matches!(platform_of(None), Err(ShaideError::UnsupportedPlatform(p)) if p == "none"));
}

#[test]
fn responses_need_an_endpoint_and_a_known_platform() {
    let err = response_target("m", None, Some("vertex")).unwrap_err();
    assert!(matches!(err, ShaideError::BadRequest(m) if m == "Model 'm' does not expose an OpenAI-compatible Responses endpoint"));
    let (endpoint, platform) = response_target("m", Some("https://e".to_owned()), Some("axem")).unwrap();
    assert_eq!(endpoint, "https://e");
    assert_eq!(platform, Platform::Axem);
}

#[test]
fn provider_errors_take_the_platforms_own_kind() {
    assert!(matches!(
        provider_request_error(Some("vertex"), "boom".to_owned()),
        ShaideError::GcpError(GcpError::Request(m)) if m == "boom"
    ));
    assert!(matches!(
        provider_request_error(Some("foundry"), "boom".to_owned()),
        ShaideError::AzureError(AzureError::Request(_))
    ));
    let body = || UpstreamBody { text: "oops".to_owned(), parsed: None };
    assert!(matches!(
        provider_http_error(Some("axem"), 500, body()),
        ShaideError::ShaideProviderError(ShaideProviderError::HttpError { status_code: 500, .. })
    ));
    assert!(matches!(
        provider_http_error(Some("vertex"), 502, body()),
        ShaideError::GcpError(GcpError::UnexpectedResponse { status_code: 502, service, .. }) if service == "responses"
    ));
    let encrypted = UpstreamBody {
        text: r#"{"error":{"code":"invalid_encrypted_content"}}"#.to_owned(),
        parsed: None,
    };
    assert!(matches!(
        provider_http_error(Some("vertex"), 400, encrypted),
        ShaideError::RequestRejection { status_code: 400, .. }
    ));
}

#[test]
fn stream_steps_skip_keepalives_and_stop_at_the_end() {
    let (out, stop) = response_stream_step(ResponseStreamInput::Message { event: "keepalive".to_owned(), data: "x".to_owned() });
    assert!(out.is_none() && !stop);
    let (out, stop) = response_stream_step(ResponseStreamInput::Message { event: "m".to_owned(), data: "[DONE]".to_owned() });
    assert!(out.is_none() && stop);
    let (out, stop) = response_stream_step(ResponseStreamInput::Message {
        event: "message".to_owned(),
        data: r#"{"type":"response.created"}"#.to_owned(),
    });
    assert_eq!(out.unwrap().unwrap().event_type, "response.created");
    assert!(!stop);
    let (out, stop) = response_stream_step(ResponseStreamInput::Failure("lost".to_owned()));
    assert_eq!(out.unwrap().unwrap_err(), "lost");
    assert!(stop);
    let (out, stop) = response_stream_step(ResponseStreamInput::Ended);
    assert!(out.is_none() && stop);
}
