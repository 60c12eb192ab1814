use shaide::error::{
    classify_upstream_error, openai_error_type, ApiError, AzureError, DbError, ErrorBody, ErrorResponse, GcpError,
    OpenAIError, RagCollectionError, Resource, ShaideError, UpstreamBody,
};

fn answer(e: ShaideError) -> (u16, String, String, Option<String>, Option<String>, Option<String>) {
    let c = e.classify();
    (c.status, c.body.error.message, c.body.error.error_type, c.body.error.code, c.body.message, c.body.reason)
}

#[test]
fn error_types_follow_the_status() {
    assert_eq!(openai_error_type(400), "invalid_request_error");
    assert_eq!(openai_error_type(401), "authentication_error");
    assert_eq!(openai_error_type(403), "permission_error");
    assert_eq!(openai_error_type(404), "not_found_error");
    assert_eq!(openai_error_type(409), "conflict_error");
    assert_eq!(openai_error_type(423), "conflict_error");
    assert_eq!(openai_error_type(429), "rate_limit_error");
    assert_eq!(openai_error_type(503), "api_error");
    assert_eq!(openai_error_type(418), "invalid_request_error");
}

#[test]
fn client_errors_carry_message_and_server_errors_carry_reason() {
    let (status, message, kind, code, legacy_message, legacy_reason) =
        answer(ShaideError::BadRequest("nope".to_owned()));
    assert_eq!((status, message.as_str(), kind.as_str()), (400, "nope", "invalid_request_error"));
    assert_eq!(code.as_deref(), Some("invalid_request"));
    assert_eq!(legacy_message.as_deref(), Some("nope"));
    assert_eq!(legacy_reason, None);

    let (status, message, _, code, legacy_message, legacy_reason) =
        answer(ShaideError::InternalServerError("secret detail".to_owned()));
    assert_eq!(status, 500);
    assert_eq!(message, "Internal server error");
    assert_eq!(code.as_deref(), Some("internal_error"));
    assert_eq!(legacy_message, None);
    assert_eq!(legacy_reason.as_deref(), Some("Internal server error"));
}

#[test]
fn each_error_kind_has_its_answer() {
    assert_eq!(answer(ShaideError::UnsupportedPlatform("x".to_owned())).1, "Requested platform 'x' is not supported");
    assert_eq!(answer(ShaideError::NotFoundRoute("/a".to_owned())).1, "Could not find the route /a");
    assert_eq!(answer(ShaideError::DB(DbError::RowNotFound)).0, 404);
    assert_eq!(answer(ShaideError::DB(DbError::NotFound(Resource::Other("model".to_owned())))).1, "Could not find the required model");
    assert_eq!(answer(ShaideError::DB(DbError::InsertFailedOnConflict("user".to_owned()))).0, 409);
    let limit = answer(ShaideError::ModelUsageLimitReached("Model usage reached on model: m".to_owned()));
    assert_eq!((limit.0, limit.2.as_str()), (403, "permission_error"));
    assert_eq!(answer(ShaideError::RagError(RagCollectionError::ServiceUnavailble)).0, 503);
    assert_eq!(answer(ShaideError::RagError(RagCollectionError::CollectionAlreadyExists)).0, 409);
    assert_eq!(answer(ShaideError::GcpError(GcpError::Credentials("x".to_owned()))).1, "GCP provider authentication failed");
    assert_eq!(
        answer(ShaideError::GcpError(GcpError::MaxRetriesHaveBeenAchieved { service: "chat completion".to_owned() })).1,
        "Maximum retries reached for chat completion"
    );
    assert_eq!(answer(ShaideError::AzureError(AzureError::Request("x".to_owned()))).0, 503);
    let rejection = answer(ShaideError::RequestRejection {
        status_code: 422,
        message: "bad query".to_owned(),
        code: "invalid_query_parameters".to_owned(),
    });
    assert_eq!(rejection.0, 422);
    assert_eq!(rejection.3.as_deref(), Some("invalid_query_parameters"));
    let api = answer(ShaideError::OpenAIError(OpenAIError::ApiError(ApiError {
        message: "upstream said no".to_owned(),
        error_type: None,
        param: None,
        code: None,
    })));
    assert_eq!((api.0, api.1.as_str(), api.2.as_str()), (500, "upstream said no", "api_error"));
}

#[test]
fn a_missing_user_reads_as_bad_credentials() {
    assert!(matches!(
        ShaideError::from_db(DbError::NotFound(Resource::User)),
        ShaideError::Unauthorized(m) if m == "Invalid credentials"
    ));
    assert!(matches!(ShaideError::from_db(DbError::RowNotFound), ShaideError::DB(DbError::RowNotFound)));
}

#[test]
fn upstream_errors_keep_an_openai_body_or_are_summarized() {
    let parsed = ErrorResponse::new(ErrorBody::new(
        "slow down".to_owned(),
        "rate_limit_error".to_owned(),
        None,
        None,
    ));
    let c = classify_upstream_error(429, UpstreamBody { text: "{..}".to_owned(), parsed: Some(parsed) }, "GCP");
    assert_eq!(c.status, 429);
    assert_eq!(c.body.reason.as_deref(), Some("slow down"));
    assert_eq!(c.body.message.as_deref(), Some("slow down"));

    let summarized = |status| classify_upstream_error(status, UpstreamBody { text: "oops".to_owned(), parsed: None }, "GCP");
    let c = summarized(401);
    assert_eq!((c.status, c.body.error.message.as_str()), (401, "GCP unauthorized"));
    let c = summarized(429);
    assert_eq!((c.status, c.body.error.message.as_str()), (429, "GCP rate limited"));
    let c = summarized(502);
    assert_eq!((c.status, c.body.error.message.as_str()), (503, "GCP unavailable"));
    let c = summarized(404);
    assert_eq!((c.status, c.body.error.message.as_str()), (400, "GCP rejected the request"));
}
