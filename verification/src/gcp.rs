//! The Google Cloud provider's decisions: how many times a rate-limited
//! request is retried, what a failed stream creation is reported as, how
//! upstream error bodies are shortened, and whether a user is over a model's
//! daily token limits.
use vstd::prelude::*;

use crate::error::{AzureError, GcpError, ShaideError, ShaideProviderError, UpstreamBody};
use crate::text::{chars_of, concat2, decimal, owned, push_str, push_chars, slice_chars, string_from_chars,
    trim_chars, trimmed, format_u64};

verus! {

/// How many times a rate-limited request is tried again.
pub const BACKOFF_ATTEMPT_LIMIT: usize = 2;

/// How many characters of an upstream error body are kept.
pub const MAX_ERROR_BODY_CHARS: usize = 4000;

/// A body of at most the limit, or its first characters with a marker.
pub open spec fn truncate_spec(body: Seq<char>) -> Seq<char> {
    if body.len() <= 4000 {
        body
    } else {
        body.take(4000) + "...[truncated]"@
    }
}

/// Shortens an upstream error body to the limit, marking that it was cut.
pub fn truncate_error_body(body: String) -> (r: String)
    ensures
        r@ == truncate_spec(body@),
{
    let chars = chars_of(body.as_str());
    if chars.len() <= MAX_ERROR_BODY_CHARS {
        return body;
    }
    let mut kept = slice_chars(&chars, 0, MAX_ERROR_BODY_CHARS);
    push_str(&mut kept, "...[truncated]");
    string_from_chars(&kept)
}

/// What was read of an upstream error body: its text, or why it could not
/// be read.
pub enum BodyRead {
    Text(String),
    Failed(String),
}

/// The body text reported for an upstream error.
pub open spec fn error_body_spec(read: BodyRead) -> Seq<char> {
    match read {
        BodyRead::Text(t) => if trimmed(t@).len() == 0 {
            "<empty body>"@
        } else {
            truncate_spec(t@)
        },
        BodyRead::Failed(e) => "<failed to read response body: "@ + e@ + ">"@,
    }
}

/// The body text reported for an upstream error: blank bodies are marked
/// empty, long ones shortened.
pub fn extract_response_error_body(read: BodyRead) -> (r: String)
    ensures
        r@ == error_body_spec(read),
{
    match read {
        BodyRead::Text(body) => {
            let chars = chars_of(body.as_str());
            let t = trim_chars(&chars);
            if t.len() == 0 {
                owned("<empty body>")
            } else {
                truncate_error_body(body)
            }
        },
        BodyRead::Failed(e) => crate::text::concat3("<failed to read response body: ", e.as_str(), ">"),
    }
}

/// A mapping failure becomes a bad request to the provider.
pub fn map_chat_request_mapping_error(err: ShaideError) -> (r: GcpError)
    ensures
        match err {
            ShaideError::BadRequest(m) => r == GcpError::BadRequest(m),
            ShaideError::BadRequestWithMessage(m) => r == GcpError::BadRequest(m),
            _ => r is BadRequest && r->BadRequest_0@ == describe_spec(err),
        },
{
    match err {
        ShaideError::BadRequest(reason) => GcpError::BadRequest(reason),
        ShaideError::BadRequestWithMessage(reason) => GcpError::BadRequest(reason),
        other => GcpError::BadRequest(describe(&other)),
    }
}

/// The one-line description of a provider error from Google Cloud.
pub open spec fn describe_gcp_spec(e: GcpError) -> Seq<char> {
    match e {
        GcpError::Build(_) => "Could not build gcp client"@,
        GcpError::Credentials(_) => "Credentials are insufficient"@,
        GcpError::DeserializationError(m) => "Deserialization error: "@ + m@,
        GcpError::BadRequest(m) => "Bad request: "@ + m@,
        GcpError::UnexpectedResponse { .. } => "Unhandled http response"@,
        GcpError::Request(_) => "Request error"@,
        GcpError::MaxRetriesHaveBeenAchieved { .. } => "attemtted to create the completion stream too many times"@,
    }
}

/// The one-line description of an error, as its `Display` reads. Errors of
/// the database and of the providers read as their own description.
pub open spec fn describe_spec(e: ShaideError) -> Seq<char> {
    match e {
        ShaideError::DB(_) => "Database error"@,
        ShaideError::UnsupportedPlatform(p) => "Unsupported provider selected: "@ + p@,
        ShaideError::InternalServerError(m) => "Internal server error: "@ + m@,
        ShaideError::NotFoundRoute(r) => "Route not found: "@ + r@,
        ShaideError::Unauthorized(_) => "Unauthorized"@,
        ShaideError::ModelUsageLimitReached(_) => "Model usage limit reached"@,
        ShaideError::BadRequest(_) => "Bad request"@,
        ShaideError::BadRequestWithMessage(m) => "Bad request: "@ + m@,
        ShaideError::RequestRejection { message, .. } => "Request rejected: "@ + message@,
        ShaideError::RagError(_) => "Rag error"@,
        ShaideError::GcpError(g) => describe_gcp_spec(g),
        ShaideError::AzureError(a) => match a {
            AzureError::Build(_) => "Could not build azure client"@,
            AzureError::Credentials(_) => "Credentials are insufficient"@,
            AzureError::HttpError { status_code, response_body } => "Http error "@ + status_display(status_code)
                + ": "@ + response_body.text@,
            AzureError::Request(_) => "Azure request failed"@,
            AzureError::Deserialization(_) => "Could not deserialize Azure response"@,
        },
        ShaideError::ShaideProviderError(p) => match p {
            ShaideProviderError::DeserializationError(m) => "Deserialization error: "@ + m@,
            ShaideProviderError::Request(_) => "Request error"@,
            ShaideProviderError::HttpError { status_code, response_body } => "Http error "@ + status_display(
                status_code,
            ) + ": "@ + response_body.text@,
        },
        ShaideError::OpenAIError(_) => "OpenAIError"@,
        ShaideError::ReqwestError(_) => "HTTP request failed"@,
    }
}

/// "Http error <status>: <body>".
fn describe_http_error(status_code: u16, body: &str) -> (r: String)
    ensures
        r@ == "Http error "@ + status_display(status_code) + ": "@ + body@,
{
    let mut v = chars_of("Http error ");
    let status = display_status(status_code);
    push_chars(&mut v, &status);
    push_str(&mut v, ": ");
    push_str(&mut v, body);
    string_from_chars(&v)
}

/// The one-line description of a provider error from Google Cloud.
pub fn describe_gcp(e: &GcpError) -> (r: String)
    ensures
        r@ == describe_gcp_spec(*e),
{
    match e {
        GcpError::Build(_) => owned("Could not build gcp client"),
        GcpError::Credentials(_) => owned("Credentials are insufficient"),
        GcpError::DeserializationError(m) => concat2("Deserialization error: ", m.as_str()),
        GcpError::BadRequest(m) => concat2("Bad request: ", m.as_str()),
        GcpError::UnexpectedResponse { .. } => owned("Unhandled http response"),
        GcpError::Request(_) => owned("Request error"),
        GcpError::MaxRetriesHaveBeenAchieved { .. } => owned("attemtted to create the completion stream too many times"),
    }
}

/// The one-line description of an error, as its `Display` reads.
pub fn describe(e: &ShaideError) -> (r: String)
    ensures
        r@ == describe_spec(*e),
{
    match e {
        ShaideError::DB(_) => owned("Database error"),
        ShaideError::UnsupportedPlatform(p) => concat2("Unsupported provider selected: ", p.as_str()),
        ShaideError::InternalServerError(m) => concat2("Internal server error: ", m.as_str()),
        ShaideError::NotFoundRoute(r) => concat2("Route not found: ", r.as_str()),
        ShaideError::Unauthorized(_) => owned("Unauthorized"),
        ShaideError::ModelUsageLimitReached(_) => owned("Model usage limit reached"),
        ShaideError::BadRequest(_) => owned("Bad request"),
        ShaideError::BadRequestWithMessage(m) => concat2("Bad request: ", m.as_str()),
        ShaideError::RequestRejection { message, .. } => concat2("Request rejected: ", message.as_str()),
        ShaideError::RagError(_) => owned("Rag error"),
        ShaideError::GcpError(g) => describe_gcp(g),
        ShaideError::AzureError(a) => match a {
            AzureError::Build(_) => owned("Could not build azure client"),
            AzureError::Credentials(_) => owned("Credentials are insufficient"),
            AzureError::HttpError { status_code, response_body } => describe_http_error(
                *status_code,
                response_body.text.as_str(),
            ),
            AzureError::Request(_) => owned("Azure request failed"),
            AzureError::Deserialization(_) => owned("Could not deserialize Azure response"),
        },
        ShaideError::ShaideProviderError(p) => match p {
            ShaideProviderError::DeserializationError(m) => concat2("Deserialization error: ", m.as_str()),
            ShaideProviderError::Request(_) => owned("Request error"),
            ShaideProviderError::HttpError { status_code, response_body } => describe_http_error(
                *status_code,
                response_body.text.as_str(),
            ),
        },
        ShaideError::OpenAIError(_) => owned("OpenAIError"),
        ShaideError::ReqwestError(_) => owned("HTTP request failed"),
    }
}

/// The reason phrase the `http` crate gives a status code, if it knows one.
pub uninterp spec fn http_canonical_reason(status: u16) -> Option<Seq<char>>;

/// The reason phrase of a status code.
///
/// Calls `http::StatusCode::from_u16` and `canonical_reason` of the result.
/// The contract claims only that the outcome is a function of the code.
#[verifier::external_body]
pub(crate) fn canonical_reason(status: u16) -> (r: Option<String>)
    ensures
        match r {
            Some(s) => http_canonical_reason(status) == Some(s@),
            None => http_canonical_reason(status) is None,
        },
{
    http::StatusCode::from_u16(status).ok().and_then(|c| c.canonical_reason()).map(|s| s.to_owned())
}

/// How a status code is written: the number, then its reason phrase.
pub open spec fn status_display(status: u16) -> Seq<char> {
    decimal(status as nat) + " "@ + match http_canonical_reason(status) {
        Some(r) => r,
        None => "<unknown status code>"@,
    }
}

/// Writes a status code with its reason phrase.
pub fn display_status(status: u16) -> (r: Vec<char>)
    ensures
        r@ == status_display(status),
{
    let mut v = format_u64(status as u64);
    push_str(&mut v, " ");
    match canonical_reason(status) {
        Some(reason) => push_str(&mut v, reason.as_str()),
        None => push_str(&mut v, "<unknown status code>"),
    }
    v
}

/// Why opening a chat stream failed.
pub enum StreamCreationFailure {
    /// The provider answered 429.
    TooManyRequests,
    /// The provider answered with another content type than a stream.
    InvalidContentType { status_code: u16, content_type: String, url: String, body: String },
    /// The provider answered with an error status.
    InvalidStatusCode { status_code: u16, url: String, body: String, vertex_invalid_argument: Option<String> },
    /// Any other failure of the event source, described.
    Other(String),
    /// The access token could not be obtained.
    Credentials(String),
}

/// What to do after a failed attempt to open a stream.
pub enum RetryDecision {
    /// Try again; the count of retries made so far is given.
    Retry(usize),
    /// Give up with this error.
    Fail(GcpError),
}

/// Whether a failure is retried: only rate limiting is, and only while
/// fewer retries than the limit were made.
pub open spec fn retries_spec(f: StreamCreationFailure, attempts: usize) -> Option<usize> {
    match f {
        StreamCreationFailure::TooManyRequests => if attempts < 2 {
            Some((attempts + 1) as usize)
        } else {
            None
        },
        _ => None,
    }
}

/// The error a failed stream creation is reported as.
pub open spec fn creation_error_spec(f: StreamCreationFailure) -> GcpErrorShape {
    match f {
        StreamCreationFailure::TooManyRequests => GcpErrorShape::MaxRetries("chat completion"@),
        StreamCreationFailure::InvalidContentType { status_code, content_type, url, body } => GcpErrorShape::Unexpected(
            status_code,
            "Invalid Content-Type: "@ + content_type@ + ", URL: "@ + url@ + ", Body: "@ + body@,
            "chat"@,
        ),
        StreamCreationFailure::InvalidStatusCode { status_code, url, body, vertex_invalid_argument } => {
            if status_code == 400 && vertex_invalid_argument is Some {
                GcpErrorShape::BadRequest(vertex_invalid_argument->0@)
            } else {
                GcpErrorShape::Unexpected(
                    status_code,
                    "Status: "@ + status_display(status_code) + ", URL: "@ + url@ + ", Body: "@ + body@,
                    "chat"@,
                )
            }
        },
        StreamCreationFailure::Other(e) => GcpErrorShape::Unexpected(502, "Unhandled event source error: "@ + e@, "chat"@),
        StreamCreationFailure::Credentials(e) => GcpErrorShape::Credentials(e@),
    }
}

/// The abstract shape of the provider errors a stream creation ends in.
pub enum GcpErrorShape {
    MaxRetries(Seq<char>),
    Unexpected(u16, Seq<char>, Seq<char>),
    BadRequest(Seq<char>),
    Credentials(Seq<char>),
}

/// The shape of a provider error.
pub open spec fn shape_of(e: GcpError) -> Option<GcpErrorShape> {
    match e {
        GcpError::MaxRetriesHaveBeenAchieved { service } => Some(GcpErrorShape::MaxRetries(service@)),
        GcpError::UnexpectedResponse { status_code, response_body, service } => if response_body.parsed is None {
            Some(GcpErrorShape::Unexpected(status_code, response_body.text@, service@))
        } else {
            None
        },
        GcpError::BadRequest(m) => Some(GcpErrorShape::BadRequest(m@)),
        GcpError::Credentials(m) => Some(GcpErrorShape::Credentials(m@)),
        _ => None,
    }
}

/// Decides what follows a failed attempt to open a chat stream, given how
/// many retries were made: rate limiting is retried up to the limit and
/// then reported; every other failure is reported at once. The texts built
/// here are never JSON documents, so no upstream error body is read from
/// them.
pub fn after_stream_failure(failure: StreamCreationFailure, attempts: usize) -> (r: RetryDecision)
    ensures
        match r {
            RetryDecision::Retry(n) => retries_spec(failure, attempts) == Some(n),
            RetryDecision::Fail(e) => retries_spec(failure, attempts) is None && shape_of(e) == Some(creation_error_spec(failure)),
        },
{
    match failure {
        StreamCreationFailure::TooManyRequests => {
            if attempts >= BACKOFF_ATTEMPT_LIMIT {
                RetryDecision::Fail(GcpError::MaxRetriesHaveBeenAchieved { service: owned("chat completion") })
            } else {
                RetryDecision::Retry(attempts + 1)
            }
        },
        StreamCreationFailure::InvalidContentType { status_code, content_type, url, body } => {
            let mut v = chars_of("Invalid Content-Type: ");
            push_str(&mut v, content_type.as_str());
            push_str(&mut v, ", URL: ");
            push_str(&mut v, url.as_str());
            push_str(&mut v, ", Body: ");
            push_str(&mut v, body.as_str());
            RetryDecision::Fail(GcpError::UnexpectedResponse {
                status_code,
                response_body: UpstreamBody { text: string_from_chars(&v), parsed: None },
                service: owned("chat"),
            })
        },
        StreamCreationFailure::InvalidStatusCode { status_code, url, body, vertex_invalid_argument } => {
            if status_code == 400 {
                match vertex_invalid_argument {
                    Some(message) => return RetryDecision::Fail(GcpError::BadRequest(message)),
                    None => {},
                }
            }
            let mut v = chars_of("Status: ");
            let status = display_status(status_code);
            push_chars(&mut v, &status);
            push_str(&mut v, ", URL: ");
            push_str(&mut v, url.as_str());
            push_str(&mut v, ", Body: ");
            push_str(&mut v, body.as_str());
            RetryDecision::Fail(GcpError::UnexpectedResponse {
                status_code,
                response_body: UpstreamBody { text: string_from_chars(&v), parsed: None },
                service: owned("chat"),
            })
        },
        StreamCreationFailure::Other(e) => RetryDecision::Fail(GcpError::UnexpectedResponse {
            status_code: 502,
            response_body: UpstreamBody { text: concat2("Unhandled event source error: ", e.as_str()), parsed: None },
            service: owned("chat"),
        }),
        StreamCreationFailure::Credentials(e) => RetryDecision::Fail(GcpError::Credentials(e)),
    }
}

/// The first entry of a Vertex error answer (a list of errors): its status
/// and message.
pub struct VertexErrorDetail {
    pub message: String,
    pub status: String,
}

/// The message of a Vertex "invalid argument" error, taken from the first
/// entry of the error list.
pub fn try_extract_vertex_bad_request(first: Option<VertexErrorDetail>) -> (r: Option<String>)
    ensures
        match first {
            Some(d) => if d.status@ == "INVALID_ARGUMENT"@ {
                r == Some(d.message)
            } else {
                r is None
            },
            None => r is None,
        },
{
    match first {
        Some(d) => {
            let status = chars_of(d.status.as_str());
            let expected = chars_of("INVALID_ARGUMENT");
            if crate::text::starts_with_chars(&status, &expected) && status.len() == expected.len() {
                proof {
                    assert(status@ =~= expected@);
                }
                Some(d.message)
            } else {
                proof {
                    if d.status@ == "INVALID_ARGUMENT"@ {
                        assert(status@.subrange(0, expected@.len() as int) =~= status@);
                    }
                }
                None
            }
        },
        None => None,
    }
}

/// What happens after a failed embedding request, given how many retries
/// were made.
pub enum EmbeddingFailure {
    TooManyRequests,
    Credentials(String),
    Request(String),
    Deserialization(String),
    UnexpectedResponse { status_code: u16, response_body: UpstreamBody },
}

/// Decides what follows a failed embedding request: rate limiting is
/// retried up to the limit, every other failure is reported.
pub fn after_embedding_failure(failure: EmbeddingFailure, attempts: usize) -> (r: RetryDecision)
    ensures
        match failure {
            EmbeddingFailure::TooManyRequests => if attempts < 2 {
                r matches RetryDecision::Retry(n) && n == attempts + 1
            } else {
                r matches RetryDecision::Fail(GcpError::MaxRetriesHaveBeenAchieved { service }) && service@ == "embedding"@
            },
            EmbeddingFailure::Credentials(m) => r == RetryDecision::Fail(GcpError::Credentials(m)),
            EmbeddingFailure::Request(m) => r == RetryDecision::Fail(GcpError::Request(m)),
            EmbeddingFailure::Deserialization(m) => r == RetryDecision::Fail(GcpError::DeserializationError(m)),
            EmbeddingFailure::UnexpectedResponse { status_code, response_body } => r matches RetryDecision::Fail(
                GcpError::UnexpectedResponse { status_code: s, response_body: b, service },
            ) && s == status_code && b == response_body && service@ == "embedding"@,
        },
{
    match failure {
        EmbeddingFailure::TooManyRequests => {
            if attempts >= BACKOFF_ATTEMPT_LIMIT {
                RetryDecision::Fail(GcpError::MaxRetriesHaveBeenAchieved { service: owned("embedding") })
            } else {
                RetryDecision::Retry(attempts + 1)
            }
        },
        EmbeddingFailure::Credentials(m) => RetryDecision::Fail(GcpError::Credentials(m)),
        EmbeddingFailure::Request(m) => RetryDecision::Fail(GcpError::Request(m)),
        EmbeddingFailure::Deserialization(m) => RetryDecision::Fail(GcpError::DeserializationError(m)),
        EmbeddingFailure::UnexpectedResponse { status_code, response_body } => RetryDecision::Fail(
            GcpError::UnexpectedResponse { status_code, response_body, service: owned("embedding") },
        ),
    }
}

/// A model's daily token limits; absent limits do not apply.
pub struct DailyLimits {
    pub model_name: String,
    pub daily_input_token_limit: Option<i64>,
    pub daily_output_token_limit: Option<i64>,
}

/// A user's token counts on a model today.
pub struct DailyUsage {
    pub total_input_token_count: i64,
    pub total_output_token_count: i64,
}

/// Whether a user is over a model's daily limits: a limit is reached once
/// the count equals it.
pub open spec fn over_limit_spec(l: DailyLimits, usage: Option<DailyUsage>) -> bool {
    match usage {
        None => false,
        Some(u) => {
            let input_limit = match l.daily_input_token_limit {
                Some(x) => x,
                None => i64::MAX,
            };
            let output_limit = match l.daily_output_token_limit {
                Some(x) => x,
                None => i64::MAX,
            };
            input_limit <= u.total_input_token_count || output_limit <= u.total_output_token_count
        },
    }
}

/// Refuses a request when the user is over the model's daily limits.
pub fn check_user_model_usage(limits: &DailyLimits, usage: Option<DailyUsage>) -> (r: Result<(), ShaideError>)
    ensures
        match r {
            Ok(()) => !over_limit_spec(*limits, usage),
            Err(e) => over_limit_spec(*limits, usage) && e is ModelUsageLimitReached
                && e->ModelUsageLimitReached_0@ == "Model usage reached on model: "@ + limits.model_name@,
        },
{
    let u = match usage {
        None => return Ok(()),
        Some(u) => u,
    };
    let input_limit = match limits.daily_input_token_limit {
        Some(x) => x,
        None => i64::MAX,
    };
    let output_limit = match limits.daily_output_token_limit {
        Some(x) => x,
        None => i64::MAX,
    };
    if input_limit <= u.total_input_token_count || output_limit <= u.total_output_token_count {
        Err(ShaideError::ModelUsageLimitReached(concat2("Model usage reached on model: ", limits.model_name.as_str())))
    } else {
        Ok(())
    }
}

/// The completion token budget sent to a provider: the request's own,
/// capped by the model's (the model's budget is taken modulo 2^32, as the
/// conversion does).
pub fn max_completion_tokens(requested: Option<u32>, model_max_generated_tokens: i64) -> (r: u32)
    ensures
        r == (match requested {
            Some(x) => if x < (model_max_generated_tokens as u32) {
                x
            } else {
                model_max_generated_tokens as u32
            },
            None => model_max_generated_tokens as u32,
        }),
{
    let model_max: u32 = #[verifier::truncate] (model_max_generated_tokens as u32);
    match requested {
        Some(x) => if x < model_max {
            x
        } else {
            model_max
        },
        None => model_max,
    }
}

} // verus!
