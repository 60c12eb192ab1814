//! The Responses API passed through to a model's provider: which provider a
//! request goes to, how upstream stream events are named, what usage a
//! terminal event reports, and what a provider's failure becomes.
use vstd::prelude::*;

use crate::chat_collect::Usage;
use crate::error::{AzureError, GcpError, ShaideError, ShaideProviderError, UpstreamBody};
use crate::text::{concat2, concat3, eq_str, owned};

verus! {

/// What the JSON text `data` holds at the JSON pointer `pointer`, read as a
/// string: `Err` with the parser's message when `data` is not JSON, `Ok(None)`
/// when nothing or no string is there.
pub uninterp spec fn json_str_at_spec(data: Seq<char>, pointer: Seq<char>) -> Result<Option<Seq<char>>, Seq<char>>;

/// What the JSON text `data` holds at the JSON pointer `pointer`, read as an
/// unsigned integer; `None` when `data` is not JSON or no such integer is
/// there.
pub uninterp spec fn json_u64_at_spec(data: Seq<char>, pointer: Seq<char>) -> Option<u64>;

/// Parses `data` with `serde_json::from_str` into a `serde_json::Value`,
/// looks up `pointer` with `Value::pointer` and reads the value found with
/// `Value::as_str`. The contract claims only that the outcome is a function
/// of the two texts.
#[verifier::external_body]
fn json_str_at(data: &str, pointer: &str) -> (r: Result<Option<String>, String>)
    ensures
        match r {
            Ok(Some(s)) => json_str_at_spec(data@, pointer@) == Ok::<Option<Seq<char>>, Seq<char>>(Some(s@)),
            Ok(None) => json_str_at_spec(data@, pointer@) == Ok::<Option<Seq<char>>, Seq<char>>(None),
            Err(e) => json_str_at_spec(data@, pointer@) == Err::<Option<Seq<char>>, Seq<char>>(e@),
        },
{
    match serde_json::from_str::<serde_json::Value>(data) {
        Ok(value) => Ok(value.pointer(pointer).and_then(serde_json::Value::as_str).map(str::to_owned)),
        Err(error) => Err(error.to_string()),
    }
}

/// Parses `data` with `serde_json::from_str` into a `serde_json::Value`,
/// looks up `pointer` with `Value::pointer` and reads the value found with
/// `Value::as_u64`. The contract claims only that the outcome is a function
/// of the two texts.
#[verifier::external_body]
fn json_u64_at(data: &str, pointer: &str) -> (r: Option<u64>)
    ensures
        r == json_u64_at_spec(data@, pointer@),
{
    serde_json::from_str::<serde_json::Value>(data).ok()?.pointer(pointer)?.as_u64()
}

/// A Responses API stream event passed on as the provider sent it: its type
/// and its JSON text.
#[derive(Debug)]
pub struct RawResponseEvent {
    pub event_type: String,
    pub data: String,
}

/// The usage of a response: input and output tokens when both are
/// integers that fit 32 bits, their sum saturating.
pub open spec fn usage_of(input: Option<u64>, output: Option<u64>) -> Option<Usage> {
    match (input, output) {
        (Some(i), Some(o)) => if i <= u32::MAX && o <= u32::MAX {
            Some(
                Usage {
                    prompt_tokens: i as u32,
                    completion_tokens: o as u32,
                    total_tokens: if i + o <= u32::MAX {
                        (i + o) as u32
                    } else {
                        u32::MAX
                    },
                },
            )
        } else {
            None
        },
        _ => None,
    }
}

/// Builds the usage from the two counts read.
fn usage_from_counts(input: Option<u64>, output: Option<u64>) -> (r: Option<Usage>)
    ensures
        r == usage_of(input, output),
{
    let i = match input {
        Some(i) => i,
        None => return None,
    };
    let o = match output {
        Some(o) => o,
        None => return None,
    };
    if i > 0xffff_ffff || o > 0xffff_ffff {
        return None;
    }
    let prompt_tokens = i as u32;
    let completion_tokens = o as u32;
    Some(Usage { prompt_tokens, completion_tokens, total_tokens: prompt_tokens.saturating_add(completion_tokens) })
}

/// The token usage of a Responses API `response` object, given as JSON text.
pub fn response_usage(response: &str) -> (r: Option<Usage>)
    ensures
        r == usage_of(
            json_u64_at_spec(response@, "/usage/input_tokens"@),
            json_u64_at_spec(response@, "/usage/output_tokens"@),
        ),
{
    let input = json_u64_at(response, "/usage/input_tokens");
    let output = json_u64_at(response, "/usage/output_tokens");
    usage_from_counts(input, output)
}

impl RawResponseEvent {
    /// The token usage that terminal events carry in their `response`.
    pub fn usage(&self) -> (r: Option<Usage>)
        ensures
            r == usage_of(
                json_u64_at_spec(self.data@, "/response/usage/input_tokens"@),
                json_u64_at_spec(self.data@, "/response/usage/output_tokens"@),
            ),
    {
        let input = json_u64_at(self.data.as_str(), "/response/usage/input_tokens");
        let output = json_u64_at(self.data.as_str(), "/response/usage/output_tokens");
        usage_from_counts(input, output)
    }
}

/// The type of an upstream event: its JSON `type` field when it has one,
/// else the SSE event name unless that is empty or the generic "message".
pub open spec fn event_type_spec(sse_event: Seq<char>, type_field: Option<Seq<char>>) -> Option<Seq<char>> {
    match type_field {
        Some(t) => Some(t),
        None => if sse_event.len() != 0 && sse_event != "message"@ {
            Some(sse_event)
        } else {
            None
        },
    }
}

/// Names an upstream event from its type field and SSE event name.
pub fn name_upstream_event(sse_event: &str, type_field: Option<String>) -> (r: Option<String>)
    ensures
        opt_text(r) == event_type_spec(sse_event@, opt_text(type_field)),
{
    match type_field {
        Some(t) => Some(t),
        None => {
            proof {
                reveal_strlit("message");
            }
            if sse_event.unicode_len() != 0 && !eq_str(sse_event, "message") {
                Some(owned(sse_event))
            } else {
                None
            }
        },
    }
}

/// The view of an optional text.
pub open spec fn opt_text(o: Option<String>) -> Option<Seq<char>> {
    match o {
        Some(s) => Some(s@),
        None => None,
    }
}

/// Reads an upstream SSE message as an event: its JSON `type` field names
/// it, the SSE event name only when the field is missing. Data that is not
/// JSON, and an event without a name, are refused.
pub fn parse_upstream_event(sse_event: &str, data: &str) -> (r: Result<RawResponseEvent, String>)
    ensures
        match json_str_at_spec(data@, "/type"@) {
            Err(e) => r matches Err(m) && m@ == "Could not parse Responses API event: "@ + e,
            Ok(t) => match event_type_spec(sse_event@, t) {
                Some(name) => r matches Ok(ev) && ev.event_type@ == name && ev.data@ == data@,
                None => r matches Err(m) && m@ == "Responses API event has no type"@,
            },
        },
{
    let type_field = match json_str_at(data, "/type") {
        Ok(t) => t,
        Err(e) => return Err(concat2("Could not parse Responses API event: ", e.as_str())),
    };
    match name_upstream_event(sse_event, type_field) {
        Some(event_type) => Ok(RawResponseEvent { event_type, data: owned(data) }),
        None => Err(owned("Responses API event has no type")),
    }
}

/// The providers a Responses request can go to.
#[derive(Clone, Copy, Debug, PartialEq, Eq)]
pub enum Platform {
    /// Google Cloud.
    Vertex,
    /// Azure AI Foundry.
    Foundry,
    /// The in-house provider.
    Axem,
}

/// The provider named by a model's platform; any other name, or none, is
/// unsupported (and reported as "none" when missing).
pub open spec fn platform_spec(platform: Option<Seq<char>>) -> Result<Platform, Seq<char>> {
    match platform {
        Some(p) => if p == "vertex"@ {
            Ok(Platform::Vertex)
        } else if p == "foundry"@ {
            Ok(Platform::Foundry)
        } else if p == "axem"@ {
            Ok(Platform::Axem)
        } else {
            Err(p)
        },
        None => Err("none"@),
    }
}

/// The provider named by a model's platform.
pub fn platform_of(platform: Option<&str>) -> (r: Result<Platform, ShaideError>)
    ensures
        match platform_spec(
            match platform {
                Some(p) => Some(p@),
                None => None,
            },
        ) {
            Ok(p) => r == Ok::<Platform, ShaideError>(p),
            Err(name) => r matches Err(ShaideError::UnsupportedPlatform(n)) && n@ == name,
        },
{
    match platform {
        Some(p) => {
            if eq_str(p, "vertex") {
                Ok(Platform::Vertex)
            } else if eq_str(p, "foundry") {
                Ok(Platform::Foundry)
            } else if eq_str(p, "axem") {
                Ok(Platform::Axem)
            } else {
                Err(ShaideError::UnsupportedPlatform(owned(p)))
            }
        },
        None => Err(ShaideError::UnsupportedPlatform(owned("none"))),
    }
}

/// Where a Responses request for a model goes: the model's Responses
/// endpoint and its provider. A model without such an endpoint is refused
/// first.
pub fn response_target(model_name: &str, responses_endpoint: Option<String>, platform: Option<&str>) -> (r: Result<
    (String, Platform),
    ShaideError,
>)
    ensures
        match responses_endpoint {
            None => r matches Err(ShaideError::BadRequest(m)) && m@ == "Model '"@ + model_name@
                + "' does not expose an OpenAI-compatible Responses endpoint"@,
            Some(endpoint) => match platform_spec(
                match platform {
                    Some(p) => Some(p@),
                    None => None,
                },
            ) {
                Ok(p) => r matches Ok((e, q)) && e == endpoint && q == p,
                Err(name) => r matches Err(ShaideError::UnsupportedPlatform(n)) && n@ == name,
            },
        },
{
    let endpoint = match responses_endpoint {
        Some(e) => e,
        None => {
            return Err(ShaideError::BadRequest(concat3(
                "Model '",
                model_name,
                "' does not expose an OpenAI-compatible Responses endpoint",
            )));
        },
    };
    match platform_of(platform) {
        Ok(p) => Ok((endpoint, p)),
        Err(e) => Err(e),
    }
}

/// The error a failed request to a provider becomes.
pub fn provider_request_error(platform: Option<&str>, error: String) -> (r: ShaideError)
    ensures
        match platform_spec(
            match platform {
                Some(p) => Some(p@),
                None => None,
            },
        ) {
            Ok(Platform::Vertex) => r == ShaideError::GcpError(GcpError::Request(error)),
            Ok(Platform::Foundry) => r == ShaideError::AzureError(AzureError::Request(error)),
            Ok(Platform::Axem) => r == ShaideError::ShaideProviderError(ShaideProviderError::Request(error)),
            Err(name) => r matches ShaideError::UnsupportedPlatform(n) && n@ == name,
        },
{
    match platform_of(platform) {
        Ok(Platform::Vertex) => ShaideError::GcpError(GcpError::Request(error)),
        Ok(Platform::Foundry) => ShaideError::AzureError(AzureError::Request(error)),
        Ok(Platform::Axem) => ShaideError::ShaideProviderError(ShaideProviderError::Request(error)),
        Err(e) => e,
    }
}

/// The code of the error a provider gives for encrypted content it cannot
/// read.
pub const INVALID_ENCRYPTED_CONTENT: &'static str = "invalid_encrypted_content";

/// The explanation given when a conversation holds encrypted items of
/// another provider, followed by the provider's own message.
pub open spec fn encrypted_content_message(upstream: Seq<char>) -> Seq<char> {
    "This conversation contains encrypted reasoning or compaction items created by a different model provider, which the model behind shaide cannot decrypt. This happens when a conversation started with another provider (for example Codex with OpenAI) is continued through shaide. Start a new conversation instead. Provider message: "@
        + upstream
}

/// Whether an upstream error answer is the "invalid encrypted content"
/// refusal, and the explanation given for it: only a 400 whose JSON body has
/// that code under `error.code`.
pub open spec fn encrypted_content_spec(status: u16, body: Seq<char>) -> Option<Seq<char>> {
    if status != 400 {
        None
    } else {
        match json_str_at_spec(body, "/error/code"@) {
            Ok(Some(code)) => if code == "invalid_encrypted_content"@ {
                Some(
                    encrypted_content_message(
                        match json_str_at_spec(body, "/error/message"@) {
                            Ok(Some(m)) => m,
                            _ => Seq::empty(),
                        },
                    ),
                )
            } else {
                None
            },
            _ => None,
        }
    }
}

/// Explains an upstream refusal of encrypted items made by another
/// provider; any other answer is left alone.
pub fn invalid_encrypted_content_error(status_code: u16, response_body: &str) -> (r: Option<ShaideError>)
    ensures
        match encrypted_content_spec(status_code, response_body@) {
            None => r is None,
            Some(message) => r matches Some(ShaideError::RequestRejection { status_code: s, message: m, code: c })
                && s == status_code && m@ == message && c@ == "invalid_encrypted_content"@,
        },
{
    if status_code != 400 {
        return None;
    }
    let code = match json_str_at(response_body, "/error/code") {
        Ok(Some(code)) => code,
        _ => return None,
    };
    if !eq_str(code.as_str(), INVALID_ENCRYPTED_CONTENT) {
        return None;
    }
    let upstream_message = match json_str_at(response_body, "/error/message") {
        Ok(Some(m)) => m,
        _ => String::new(),
    };
    let message = concat2(
        "This conversation contains encrypted reasoning or compaction items created by a different model provider, which the model behind shaide cannot decrypt. This happens when a conversation started with another provider (for example Codex with OpenAI) is continued through shaide. Start a new conversation instead. Provider message: ",
        upstream_message.as_str(),
    );
    Some(ShaideError::RequestRejection { status_code, message, code: owned(INVALID_ENCRYPTED_CONTENT) })
}

/// The error a provider's error answer becomes: the encrypted content
/// refusal explained, otherwise the provider's own kind of error carrying the
/// status and body.
pub fn provider_http_error(platform: Option<&str>, status_code: u16, response_body: UpstreamBody) -> (r: ShaideError)
    ensures
        match encrypted_content_spec(status_code, response_body.text@) {
            Some(message) => r matches ShaideError::RequestRejection { status_code: s, message: m, code: c }
                && s == status_code && m@ == message && c@ == "invalid_encrypted_content"@,
            None => match platform_spec(
                match platform {
                    Some(p) => Some(p@),
                    None => None,
                },
            ) {
                Ok(Platform::Vertex) => r matches ShaideError::GcpError(
                    GcpError::UnexpectedResponse { status_code: s, response_body: b, service },
                ) && s == status_code && b == response_body && service@ == "responses"@,
                Ok(Platform::Foundry) => r == ShaideError::AzureError(
                    AzureError::HttpError { status_code, response_body },
                ),
                Ok(Platform::Axem) => r == ShaideError::ShaideProviderError(
                    ShaideProviderError::HttpError { status_code, response_body },
                ),
                Err(name) => r matches ShaideError::UnsupportedPlatform(n) && n@ == name,
            },
        },
{
    match invalid_encrypted_content_error(status_code, response_body.text.as_str()) {
        Some(e) => return e,
        None => {},
    }
    match platform_of(platform) {
        Ok(Platform::Vertex) => ShaideError::GcpError(
            GcpError::UnexpectedResponse { status_code, response_body, service: owned("responses") },
        ),
        Ok(Platform::Foundry) => ShaideError::AzureError(AzureError::HttpError { status_code, response_body }),
        Ok(Platform::Axem) => ShaideError::ShaideProviderError(
            ShaideProviderError::HttpError { status_code, response_body },
        ),
        Err(e) => e,
    }
}

/// An event of a Responses API stream, as the stream reader sees it.
pub enum ResponseStreamInput {
    /// The stream opened.
    Open,
    /// A message: its SSE event name and data.
    Message { event: String, data: String },
    /// The stream ended.
    Ended,
    /// The event source failed, with its description.
    Failure(String),
}

/// Handles one event of a Responses API stream: keep-alives and the opening
/// are skipped; the end marker and the end of the stream stop it; a message
/// is read as an event; a failure is passed on and stops the stream.
pub fn response_stream_step(input: ResponseStreamInput) -> (r: (Option<Result<RawResponseEvent, String>>, bool))
    ensures
        match input {
            ResponseStreamInput::Open => r.0 is None && !r.1,
            ResponseStreamInput::Ended => r.0 is None && r.1,
            ResponseStreamInput::Failure(m) => r.0 == Some(Err::<RawResponseEvent, String>(m)) && r.1,
            ResponseStreamInput::Message { event, data } => if event@ == "keepalive"@ {
                r.0 is None && !r.1
            } else if data@ == "[DONE]"@ {
                r.0 is None && r.1
            } else {
                !r.1 && r.0 is Some && match json_str_at_spec(data@, "/type"@) {
                    Err(e) => r.0->0 matches Err(m) && m@ == "Could not parse Responses API event: "@ + e,
                    Ok(t) => match event_type_spec(event@, t) {
                        Some(name) => r.0->0 matches Ok(ev) && ev.event_type@ == name && ev.data@ == data@,
                        None => r.0->0 matches Err(m) && m@ == "Responses API event has no type"@,
                    },
                }
            },
        },
{
    match input {
        ResponseStreamInput::Open => (None, false),
        ResponseStreamInput::Ended => (None, true),
        ResponseStreamInput::Failure(m) => (Some(Err(m)), true),
        ResponseStreamInput::Message { event, data } => {
            if eq_str(event.as_str(), "keepalive") {
                (None, false)
            } else if eq_str(data.as_str(), "[DONE]") {
                (None, true)
            } else {
                (Some(parse_upstream_event(event.as_str(), data.as_str())), false)
            }
        },
    }
}

} // verus!
