//! The service's errors and how each is answered: an HTTP status and an
//! OpenAI-style error body.
use vstd::prelude::*;

use crate::text::{concat2, concat3, owned};

verus! {

/// `status` is a 5xx status.
pub open spec fn is_server_error(status: u16) -> bool {
    500 <= status <= 599
}

/// 429 and 5xx answers carry their text under the legacy `reason` field,
/// all others under the legacy `message` field.
pub open spec fn uses_reason_field(status: u16) -> bool {
    status == 429 || is_server_error(status)
}

/// The OpenAI error `type` that goes with a status.
pub open spec fn openai_error_type_spec(status: u16) -> Seq<char> {
    if status == 400 {
        "invalid_request_error"@
    } else if status == 401 {
        "authentication_error"@
    } else if status == 403 {
        "permission_error"@
    } else if status == 404 {
        "not_found_error"@
    } else if status == 429 {
        "rate_limit_error"@
    } else if status == 409 || status == 423 {
        "conflict_error"@
    } else if is_server_error(status) {
        "api_error"@
    } else {
        "invalid_request_error"@
    }
}

/// The OpenAI error `type` that goes with a status.
pub fn openai_error_type(status: u16) -> (r: &'static str)
    ensures
        r@ == openai_error_type_spec(status),
{
    if status == 400 {
        "invalid_request_error"
    } else if status == 401 {
        "authentication_error"
    } else if status == 403 {
        "permission_error"
    } else if status == 404 {
        "not_found_error"
    } else if status == 429 {
        "rate_limit_error"
    } else if status == 409 || status == 423 {
        "conflict_error"
    } else if 500 <= status && status <= 599 {
        "api_error"
    } else {
        "invalid_request_error"
    }
}

/// The view of an optional text.
pub open spec fn opt_view(o: Option<String>) -> Option<Seq<char>> {
    match o {
        Some(s) => Some(s@),
        None => None,
    }
}

/// Clones an optional text.
pub fn clone_opt(o: &Option<String>) -> (r: Option<String>)
    ensures
        opt_view(r) == opt_view(*o),
{
    match o {
        Some(s) => Some(s.clone()),
        None => None,
    }
}

/// The `error` object of an OpenAI error answer.
#[derive(Debug)]
pub struct ErrorBody {
    pub message: String,
    pub error_type: String,
    pub param: Option<String>,
    pub code: Option<String>,
}

/// The abstract content of an [`ErrorBody`].
pub struct ErrorBodyView {
    pub message: Seq<char>,
    pub error_type: Seq<char>,
    pub param: Option<Seq<char>>,
    pub code: Option<Seq<char>>,
}

impl View for ErrorBody {
    type V = ErrorBodyView;

    open spec fn view(&self) -> ErrorBodyView {
        ErrorBodyView {
            message: self.message@,
            error_type: self.error_type@,
            param: opt_view(self.param),
            code: opt_view(self.code),
        }
    }
}

impl ErrorBody {
    /// An error object from its four fields.
    pub fn new(message: String, error_type: String, param: Option<String>, code: Option<String>) -> (r: Self)
        ensures
            r@ == (ErrorBodyView {
                message: message@,
                error_type: error_type@,
                param: opt_view(param),
                code: opt_view(code),
            }),
    {
        ErrorBody { message, error_type, param, code }
    }

    /// A copy of this error object.
    pub fn duplicate(&self) -> (r: Self)
        ensures
            r@ == self@,
    {
        ErrorBody {
            message: self.message.clone(),
            error_type: self.error_type.clone(),
            param: clone_opt(&self.param),
            code: clone_opt(&self.code),
        }
    }
}

/// A whole OpenAI error answer: the `error` object, and the legacy top-level
/// `message` or `reason` field that older clients read.
#[derive(Debug)]
pub struct ErrorResponse {
    pub error: ErrorBody,
    pub message: Option<String>,
    pub reason: Option<String>,
}

/// The abstract content of an [`ErrorResponse`].
pub struct ErrorResponseView {
    pub error: ErrorBodyView,
    pub message: Option<Seq<char>>,
    pub reason: Option<Seq<char>>,
}

impl View for ErrorResponse {
    type V = ErrorResponseView;

    open spec fn view(&self) -> ErrorResponseView {
        ErrorResponseView {
            error: self.error@,
            message: opt_view(self.message),
            reason: opt_view(self.reason),
        }
    }
}

/// An answer whose legacy text is under `message`.
pub open spec fn with_message_spec(body: ErrorBodyView) -> ErrorResponseView {
    ErrorResponseView { error: body, message: Some(body.message), reason: None }
}

/// An answer whose legacy text is under `reason`.
pub open spec fn with_reason_spec(body: ErrorBodyView) -> ErrorResponseView {
    ErrorResponseView { error: body, message: None, reason: Some(body.message) }
}

/// `r` with its legacy `reason` filled from the error message when absent.
pub open spec fn ensure_reason_spec(r: ErrorResponseView) -> ErrorResponseView {
    if r.reason is Some {
        r
    } else {
        ErrorResponseView { reason: Some(r.error.message), ..r }
    }
}

/// `r` with its legacy `message` filled from the error message when absent.
pub open spec fn ensure_message_spec(r: ErrorResponseView) -> ErrorResponseView {
    if r.message is Some {
        r
    } else {
        ErrorResponseView { message: Some(r.error.message), ..r }
    }
}

impl ErrorResponse {
    /// The answer for a client error: the text also under `message`.
    pub fn new(error: ErrorBody) -> (r: Self)
        ensures
            r@ == with_message_spec(error@),
    {
        let message = Some(error.message.clone());
        ErrorResponse { error, message, reason: None }
    }

    /// The answer for a rate limit or server error: the text also under
    /// `reason`.
    pub fn from_reason(error: ErrorBody) -> (r: Self)
        ensures
            r@ == with_reason_spec(error@),
    {
        let reason = Some(error.message.clone());
        ErrorResponse { error, message: None, reason }
    }

    /// This answer, with `reason` filled in when it is missing.
    pub fn ensure_legacy_reason(self) -> (r: Self)
        ensures
            r@ == ensure_reason_spec(self@),
    {
        if self.reason.is_some() {
            self
        } else {
            let reason = Some(self.error.message.clone());
            ErrorResponse { reason, ..self }
        }
    }

    /// This answer, with `message` filled in when it is missing.
    pub fn ensure_legacy_message(self) -> (r: Self)
        ensures
            r@ == ensure_message_spec(self@),
    {
        if self.message.is_some() {
            self
        } else {
            let message = Some(self.error.message.clone());
            ErrorResponse { message, ..self }
        }
    }
}

/// A status and the body sent with it.
#[derive(Debug)]
pub struct ClassifiedError {
    pub status: u16,
    pub body: ErrorResponse,
}

/// The abstract content of a [`ClassifiedError`].
pub struct ClassifiedView {
    pub status: u16,
    pub body: ErrorResponseView,
}

impl View for ClassifiedError {
    type V = ClassifiedView;

    open spec fn view(&self) -> ClassifiedView {
        ClassifiedView { status: self.status, body: self.body@ }
    }
}

/// The answer built from a status, a message, an optional `param` and a
/// `code`: the error type follows the status, and so does the legacy field.
pub open spec fn classified_spec(status: u16, message: Seq<char>, param: Option<Seq<char>>, code: Seq<char>) -> ClassifiedView {
    let body = ErrorBodyView {
        message: message,
        error_type: openai_error_type_spec(status),
        param: param,
        code: Some(code),
    };
    ClassifiedView {
        status: status,
        body: if uses_reason_field(status) {
            with_reason_spec(body)
        } else {
            with_message_spec(body)
        },
    }
}

/// The generic answer for a failure whose details stay in the log.
pub open spec fn internal_spec() -> ClassifiedView {
    classified_spec(500, "Internal server error"@, None, "internal_error"@)
}

impl ClassifiedError {
    /// The answer for a status, a message, an optional `param` and a code.
    pub fn new_owned_code(status: u16, message: String, param: Option<&str>, code: String) -> (r: Self)
        ensures
            r@ == classified_spec(
                status,
                message@,
                match param {
                    Some(p) => Some(p@),
                    None => None,
                },
                code@,
            ),
    {
        let error_type = openai_error_type(status);
        let param_owned: Option<String> = match param {
            Some(p) => Some(owned(p)),
            None => None,
        };
        let error = ErrorBody::new(message, owned(error_type), param_owned, Some(code));
        let body = if status == 429 || (500 <= status && status <= 599) {
            ErrorResponse::from_reason(error)
        } else {
            ErrorResponse::new(error)
        };
        ClassifiedError { status, body }
    }

    /// The answer for a status, a message, an optional `param` and a code
    /// given as a literal.
    pub fn new(status: u16, message: String, param: Option<&str>, code: &str) -> (r: Self)
        ensures
            r@ == classified_spec(
                status,
                message@,
                match param {
                    Some(p) => Some(p@),
                    None => None,
                },
                code@,
            ),
    {
        Self::new_owned_code(status, message, param, owned(code))
    }

    /// The generic internal error answer.
    pub fn internal() -> (r: Self)
        ensures
            r@ == internal_spec(),
    {
        Self::new(500, owned("Internal server error"), None, "internal_error")
    }
}

/// The body of an upstream error answer: its text, and what that text reads
/// as when it is an OpenAI error document (`None` when it is not one).
#[derive(Debug)]
pub struct UpstreamBody {
    pub text: String,
    pub parsed: Option<ErrorResponse>,
}

/// The answer for an upstream service's error: the upstream's own OpenAI
/// error document when there is one (with its legacy field filled in),
/// otherwise an answer chosen by the upstream status.
pub open spec fn upstream_spec(status: u16, parsed: Option<ErrorResponseView>, service: Seq<char>) -> ClassifiedView {
    match parsed {
        Some(body) => ClassifiedView {
            status: status,
            body: if uses_reason_field(status) {
                ensure_reason_spec(body)
            } else {
                ensure_message_spec(body)
            },
        },
        None => {
            if status == 401 {
                classified_spec(status, service + " unauthorized"@, None, "provider_authentication_error"@)
            } else if status == 429 {
                classified_spec(status, service + " rate limited"@, None, "provider_rate_limit_exceeded"@)
            } else if is_server_error(status) {
                classified_spec(503, service + " unavailable"@, None, "provider_unavailable"@)
            } else {
                classified_spec(400, service + " rejected the request"@, None, "provider_request_rejected"@)
            }
        },
    }
}

/// The view of an optional error answer.
pub open spec fn opt_response_view(o: Option<ErrorResponse>) -> Option<ErrorResponseView> {
    match o {
        Some(r) => Some(r@),
        None => None,
    }
}

/// Answers an upstream service's error response.
pub fn classify_upstream_error(status: u16, body: UpstreamBody, service: &str) -> (r: ClassifiedError)
    ensures
        r@ == upstream_spec(status, opt_response_view(body.parsed), service@),
{
    match body.parsed {
        Some(parsed) => {
            let b = if status == 429 || (500 <= status && status <= 599) {
                parsed.ensure_legacy_reason()
            } else {
                parsed.ensure_legacy_message()
            };
            ClassifiedError { status, body: b }
        },
        None => {
            if status == 401 {
                ClassifiedError::new(status, concat2(service, " unauthorized"), None, "provider_authentication_error")
            } else if status == 429 {
                ClassifiedError::new(status, concat2(service, " rate limited"), None, "provider_rate_limit_exceeded")
            } else if 500 <= status && status <= 599 {
                ClassifiedError::new(503, concat2(service, " unavailable"), None, "provider_unavailable")
            } else {
                ClassifiedError::new(400, concat2(service, " rejected the request"), None, "provider_request_rejected")
            }
        },
    }
}

/// Database failures.
#[derive(Debug)]
pub enum DbError {
    /// A query expected a row and found none.
    RowNotFound,
    /// Any other database failure, with its description.
    Database(String),
    /// An insert collided with an existing row.
    InsertFailedOnConflict(String),
    /// A looked-up resource does not exist.
    NotFound(Resource),
}

/// The kinds of stored resources a lookup can miss.
#[derive(Debug)]
pub enum Resource {
    User,
    Other(String),
}

/// The name a resource is reported under.
pub open spec fn resource_name(r: Resource) -> Seq<char> {
    match r {
        Resource::User => "user"@,
        Resource::Other(name) => name@,
    }
}

/// Failures of the vector store.
#[derive(Debug)]
pub enum RagCollectionError {
    ServiceUnavailble,
    CollectionNotFound,
    CollectionAlreadyExists,
    Other(String),
}

/// Failures of the Google Cloud provider.
#[derive(Debug)]
pub enum GcpError {
    Build(String),
    Credentials(String),
    DeserializationError(String),
    BadRequest(String),
    UnexpectedResponse { status_code: u16, response_body: UpstreamBody, service: String },
    Request(String),
    MaxRetriesHaveBeenAchieved { service: String },
}

/// Failures of the Azure provider.
#[derive(Debug)]
pub enum AzureError {
    Build(String),
    Credentials(String),
    HttpError { status_code: u16, response_body: UpstreamBody },
    Request(String),
    Deserialization(String),
}

/// Failures of the self-hosted provider.
#[derive(Debug)]
pub enum ShaideProviderError {
    DeserializationError(String),
    Request(String),
    HttpError { status_code: u16, response_body: UpstreamBody },
}

/// An error object an OpenAI-compatible provider answered with.
#[derive(Debug)]
pub struct ApiError {
    pub message: String,
    pub error_type: Option<String>,
    pub param: Option<String>,
    pub code: Option<String>,
}

/// Failures of an OpenAI-compatible provider.
#[derive(Debug)]
pub enum OpenAIError {
    ApiError(ApiError),
    Other(String),
}

/// Everything a request can fail with.
#[derive(Debug)]
pub enum ShaideError {
    DB(DbError),
    UnsupportedPlatform(String),
    InternalServerError(String),
    NotFoundRoute(String),
    Unauthorized(String),
    ModelUsageLimitReached(String),
    BadRequest(String),
    BadRequestWithMessage(String),
    RequestRejection { status_code: u16, message: String, code: String },
    RagError(RagCollectionError),
    GcpError(GcpError),
    AzureError(AzureError),
    ShaideProviderError(ShaideProviderError),
    OpenAIError(OpenAIError),
    ReqwestError(String),
}

/// How a Google Cloud failure is answered.
pub open spec fn gcp_spec(e: GcpError) -> ClassifiedView {
    match e {
        GcpError::Build(_) => internal_spec(),
        GcpError::Credentials(_) => classified_spec(401, "GCP provider authentication failed"@, None, "provider_authentication_error"@),
        GcpError::DeserializationError(_) => internal_spec(),
        GcpError::BadRequest(m) => classified_spec(400, m@, None, "invalid_request"@),
        GcpError::UnexpectedResponse { status_code, response_body, service } => upstream_spec(
            status_code,
            opt_response_view(response_body.parsed),
            service@,
        ),
        GcpError::Request(_) => internal_spec(),
        GcpError::MaxRetriesHaveBeenAchieved { service } => classified_spec(
            500,
            "Maximum retries reached for "@ + service@,
            None,
            "provider_retries_exhausted"@,
        ),
    }
}

/// How an Azure failure is answered.
pub open spec fn azure_spec(e: AzureError) -> ClassifiedView {
    match e {
        AzureError::Build(_) => internal_spec(),
        AzureError::Credentials(_) => classified_spec(401, "Azure provider authentication failed"@, None, "provider_authentication_error"@),
        AzureError::HttpError { status_code, response_body } => upstream_spec(
            status_code,
            opt_response_view(response_body.parsed),
            "Azure provider"@,
        ),
        AzureError::Request(_) => classified_spec(503, "Azure provider unavailable"@, None, "provider_unavailable"@),
        AzureError::Deserialization(_) => internal_spec(),
    }
}

/// How a failure of the self-hosted provider is answered.
pub open spec fn shaide_provider_spec(e: ShaideProviderError) -> ClassifiedView {
    match e {
        ShaideProviderError::DeserializationError(_) => internal_spec(),
        ShaideProviderError::Request(_) => internal_spec(),
        ShaideProviderError::HttpError { status_code, response_body } => upstream_spec(
            status_code,
            opt_response_view(response_body.parsed),
            "Shaide provider"@,
        ),
    }
}

/// How every error is answered.
pub open spec fn classify_spec(e: ShaideError) -> ClassifiedView {
    match e {
        ShaideError::DB(DbError::RowNotFound) => classified_spec(404, "A database row could not be found"@, None, "resource_not_found"@),
        ShaideError::DB(DbError::Database(_)) => internal_spec(),
        ShaideError::DB(DbError::InsertFailedOnConflict(v)) => classified_spec(
            409,
            "Conflict when inserting instance type: "@ + v@,
            None,
            "resource_conflict"@,
        ),
        ShaideError::DB(DbError::NotFound(r)) => classified_spec(
            404,
            "Could not find the required "@ + resource_name(r),
            None,
            "resource_not_found"@,
        ),
        ShaideError::UnsupportedPlatform(p) => classified_spec(
            400,
            "Requested platform '"@ + p@ + "' is not supported"@,
            None,
            "unsupported_platform"@,
        ),
        ShaideError::InternalServerError(_) => internal_spec(),
        ShaideError::NotFoundRoute(route) => classified_spec(404, "Could not find the route "@ + route@, None, "route_not_found"@),
        ShaideError::Unauthorized(m) => classified_spec(401, m@, None, "authentication_failed"@),
        ShaideError::ModelUsageLimitReached(m) => classified_spec(403, m@, Some("model"@), "model_usage_limit_reached"@),
        ShaideError::BadRequest(m) => classified_spec(400, m@, None, "invalid_request"@),
        ShaideError::BadRequestWithMessage(m) => classified_spec(400, m@, None, "invalid_request"@),
        ShaideError::RequestRejection { status_code, message, code } => classified_spec(status_code, message@, None, code@),
        ShaideError::RagError(RagCollectionError::CollectionNotFound) => classified_spec(404, "Collection not found"@, None, "collection_not_found"@),
        ShaideError::RagError(RagCollectionError::ServiceUnavailble) => classified_spec(503, "Vector service unavailable"@, None, "service_unavailable"@),
        ShaideError::RagError(RagCollectionError::CollectionAlreadyExists) => classified_spec(409, "Collection already exists"@, None, "collection_already_exists"@),
        ShaideError::RagError(RagCollectionError::Other(_)) => internal_spec(),
        ShaideError::GcpError(g) => gcp_spec(g),
        ShaideError::AzureError(a) => azure_spec(a),
        ShaideError::ShaideProviderError(s) => shaide_provider_spec(s),
        ShaideError::OpenAIError(OpenAIError::ApiError(api)) => ClassifiedView {
            status: 500,
            body: with_reason_spec(ErrorBodyView {
                message: api.message@,
                error_type: match api.error_type {
                    Some(t) => t@,
                    None => "api_error"@,
                },
                param: opt_view(api.param),
                code: opt_view(api.code),
            }),
        },
        ShaideError::OpenAIError(OpenAIError::Other(_)) => internal_spec(),
        ShaideError::ReqwestError(_) => internal_spec(),
    }
}

/// Every error answer carries the legacy text field its status calls for:
/// `reason` for 429 and 5xx answers, `message` for all others.
pub proof fn law_error_answer_has_legacy_field(e: ShaideError)
    ensures
        ({
            let c = classify_spec(e);
            &&& uses_reason_field(c.status) ==> c.body.reason is Some
            &&& !uses_reason_field(c.status) ==> c.body.message is Some
        }),
{
}

/// Failures whose details stay in the log are answered with the generic
/// internal error, whatever their text.
pub proof fn law_internal_failures_hide_details(detail: String)
    ensures
        classify_spec(ShaideError::InternalServerError(detail)) == internal_spec(),
        classify_spec(ShaideError::DB(DbError::Database(detail))) == internal_spec(),
        classify_spec(ShaideError::RagError(RagCollectionError::Other(detail))) == internal_spec(),
        classify_spec(ShaideError::OpenAIError(OpenAIError::Other(detail))) == internal_spec(),
        classify_spec(ShaideError::ReqwestError(detail)) == internal_spec(),
        classify_spec(ShaideError::GcpError(GcpError::Request(detail))) == internal_spec(),
        internal_spec().status == 500 && internal_spec().body.error.message == "Internal server error"@,
{
}

/// Answers a Google Cloud failure.
pub fn classify_gcp_error(error: GcpError) -> (r: ClassifiedError)
    ensures
        r@ == gcp_spec(error),
{
    match error {
        GcpError::Build(_) => ClassifiedError::internal(),
        GcpError::Credentials(_) => ClassifiedError::new(
            401,
            owned("GCP provider authentication failed"),
            None,
            "provider_authentication_error",
        ),
        GcpError::DeserializationError(_) => ClassifiedError::internal(),
        GcpError::BadRequest(message) => ClassifiedError::new(400, message, None, "invalid_request"),
        GcpError::UnexpectedResponse { status_code, response_body, service } => classify_upstream_error(
            status_code,
            response_body,
            service.as_str(),
        ),
        GcpError::Request(_) => ClassifiedError::internal(),
        GcpError::MaxRetriesHaveBeenAchieved { service } => ClassifiedError::new(
            500,
            concat2("Maximum retries reached for ", service.as_str()),
            None,
            "provider_retries_exhausted",
        ),
    }
}

/// Answers an Azure failure.
pub fn classify_azure_error(error: AzureError) -> (r: ClassifiedError)
    ensures
        r@ == azure_spec(error),
{
    match error {
        AzureError::Build(_) => ClassifiedError::internal(),
        AzureError::Credentials(_) => ClassifiedError::new(
            401,
            owned("Azure provider authentication failed"),
            None,
            "provider_authentication_error",
        ),
        AzureError::HttpError { status_code, response_body } => classify_upstream_error(
            status_code,
            response_body,
            "Azure provider",
        ),
        AzureError::Request(_) => ClassifiedError::new(503, owned("Azure provider unavailable"), None, "provider_unavailable"),
        AzureError::Deserialization(_) => ClassifiedError::internal(),
    }
}

/// Answers a failure of the self-hosted provider.
pub fn classify_shaide_provider_error(error: ShaideProviderError) -> (r: ClassifiedError)
    ensures
        r@ == shaide_provider_spec(error),
{
    match error {
        ShaideProviderError::DeserializationError(_) => ClassifiedError::internal(),
        ShaideProviderError::Request(_) => ClassifiedError::internal(),
        ShaideProviderError::HttpError { status_code, response_body } => classify_upstream_error(
            status_code,
            response_body,
            "Shaide provider",
        ),
    }
}

impl ShaideError {
    /// The status and body this error is answered with.
    pub fn classify(self) -> (r: ClassifiedError)
        ensures
            r@ == classify_spec(self),
    {
        match self {
            ShaideError::DB(DbError::RowNotFound) => ClassifiedError::new(
                404,
                owned("A database row could not be found"),
                None,
                "resource_not_found",
            ),
            ShaideError::DB(DbError::Database(_)) => ClassifiedError::internal(),
            ShaideError::DB(DbError::InsertFailedOnConflict(value)) => ClassifiedError::new(
                409,
                concat2("Conflict when inserting instance type: ", value.as_str()),
                None,
                "resource_conflict",
            ),
            ShaideError::DB(DbError::NotFound(resource)) => {
                let name = match resource {
                    Resource::User => owned("user"),
                    Resource::Other(name) => name,
                };
                ClassifiedError::new(
                    404,
                    concat2("Could not find the required ", name.as_str()),
                    None,
                    "resource_not_found",
                )
            },
            ShaideError::UnsupportedPlatform(platform) => ClassifiedError::new(
                400,
                concat3("Requested platform '", platform.as_str(), "' is not supported"),
                None,
                "unsupported_platform",
            ),
            ShaideError::InternalServerError(_) => ClassifiedError::internal(),
            ShaideError::NotFoundRoute(route) => ClassifiedError::new(
                404,
                concat2("Could not find the route ", route.as_str()),
                None,
                "route_not_found",
            ),
            ShaideError::Unauthorized(message) => ClassifiedError::new(401, message, None, "authentication_failed"),
            ShaideError::ModelUsageLimitReached(message) => ClassifiedError::new(
                403,
                message,
                Some("model"),
                "model_usage_limit_reached",
            ),
            ShaideError::BadRequest(message) => ClassifiedError::new(400, message, None, "invalid_request"),
            ShaideError::BadRequestWithMessage(message) => ClassifiedError::new(400, message, None, "invalid_request"),
            ShaideError::RequestRejection { status_code, message, code } => ClassifiedError::new_owned_code(
                status_code,
                message,
                None,
                code,
            ),
            ShaideError::RagError(RagCollectionError::CollectionNotFound) => ClassifiedError::new(
                404,
                owned("Collection not found"),
                None,
                "collection_not_found",
            ),
            ShaideError::RagError(RagCollectionError::ServiceUnavailble) => ClassifiedError::new(
                503,
                owned("Vector service unavailable"),
                None,
                "service_unavailable",
            ),
            ShaideError::RagError(RagCollectionError::CollectionAlreadyExists) => ClassifiedError::new(
                409,
                owned("Collection already exists"),
                None,
                "collection_already_exists",
            ),
            ShaideError::RagError(RagCollectionError::Other(_)) => ClassifiedError::internal(),
            ShaideError::GcpError(error) => classify_gcp_error(error),
            ShaideError::AzureError(error) => classify_azure_error(error),
            ShaideError::ShaideProviderError(error) => classify_shaide_provider_error(error),
            ShaideError::OpenAIError(OpenAIError::ApiError(api)) => {
                let error_type = match api.error_type {
                    Some(t) => t,
                    None => owned(openai_error_type(500)),
                };
                ClassifiedError {
                    status: 500,
                    body: ErrorResponse::from_reason(ErrorBody::new(api.message, error_type, api.param, api.code)),
                }
            },
            ShaideError::OpenAIError(OpenAIError::Other(_)) => ClassifiedError::internal(),
            ShaideError::ReqwestError(_) => ClassifiedError::internal(),
        }
    }

    /// A database failure; a missing user reads as bad credentials.
    pub fn from_db(value: DbError) -> (r: Self)
        ensures
            match value {
                DbError::NotFound(Resource::User) => r matches ShaideError::Unauthorized(m) && m@ == "Invalid credentials"@,
                _ => r == ShaideError::DB(value),
            },
    {
        match value {
            DbError::NotFound(Resource::User) => ShaideError::Unauthorized(owned("Invalid credentials")),
            value => ShaideError::DB(value),
        }
    }

    /// A database failure.
    pub fn db(value: DbError) -> (r: Self)
        ensures
            r == ShaideError::DB(value),
    {
        ShaideError::DB(value)
    }

    /// A provider platform this service does not serve.
    pub fn unsupported_platform(platform: String) -> (r: Self)
        ensures
            r == ShaideError::UnsupportedPlatform(platform),
    {
        ShaideError::UnsupportedPlatform(platform)
    }

    /// A failure whose details are only logged.
    pub fn internal_server_error(error: String) -> (r: Self)
        ensures
            r == ShaideError::InternalServerError(error),
    {
        ShaideError::InternalServerError(error)
    }

    /// A route that does not exist.
    pub fn not_found_route(route: String) -> (r: Self)
        ensures
            r == ShaideError::NotFoundRoute(route),
    {
        ShaideError::NotFoundRoute(route)
    }

    /// A refused authentication.
    pub fn unauthorized(message: String) -> (r: Self)
        ensures
            r == ShaideError::Unauthorized(message),
    {
        ShaideError::Unauthorized(message)
    }

    /// A user over a model's daily token limit.
    pub fn model_usage_limit_reached(message: String) -> (r: Self)
        ensures
            r == ShaideError::ModelUsageLimitReached(message),
    {
        ShaideError::ModelUsageLimitReached(message)
    }

    /// A malformed request.
    pub fn bad_request(reason: String) -> (r: Self)
        ensures
            r == ShaideError::BadRequest(reason),
    {
        ShaideError::BadRequest(reason)
    }

    /// A malformed request, with a message for the client.
    pub fn bad_request_with_message(message: String) -> (r: Self)
        ensures
            r == ShaideError::BadRequestWithMessage(message),
    {
        ShaideError::BadRequestWithMessage(message)
    }

    /// A request refused with a chosen status and code.
    pub fn request_rejection(status_code: u16, message: String, code: String) -> (r: Self)
        ensures
            r == (ShaideError::RequestRejection { status_code, message, code }),
    {
        ShaideError::RequestRejection { status_code, message, code }
    }

    /// A vector store failure.
    pub fn rag_error(value: RagCollectionError) -> (r: Self)
        ensures
            r == ShaideError::RagError(value),
    {
        ShaideError::RagError(value)
    }

    /// A failed outgoing HTTP request.
    pub fn reqwest(error: String) -> (r: Self)
        ensures
            r == ShaideError::ReqwestError(error),
    {
        ShaideError::ReqwestError(error)
    }
}

} // verus!
