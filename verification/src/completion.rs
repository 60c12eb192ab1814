//! Code completion: the request, the fill-in-the-middle prompt and the
//! provider payload built from it, and the text read back from a provider's
//! answer.
use vstd::prelude::*;

use crate::error::{opt_view, ShaideError};
use crate::text::{chars_of, owned, push_chars, push_str, starts_with, starts_with_chars, contains_text,
    contains_chars, string_from_chars};

verus! {

/// Why a completion request cannot be turned into a prompt.
#[derive(Debug)]
pub enum CompletionError {
    MissingSegments,
    MissingFimPromptTemplate,
    InvalidFimPromptTemplate,
}

impl CompletionError {
    /// The message this error is reported with.
    pub fn message(&self) -> (r: String)
        ensures
            r@ == completion_error_message(*self),
    {
        match self {
            CompletionError::MissingSegments => owned("missing completion segments in request"),
            CompletionError::MissingFimPromptTemplate => owned("fim prompt template is not configured"),
            CompletionError::InvalidFimPromptTemplate => owned(
                "fim prompt template must contain both {prefix} and {suffix} placeholders",
            ),
        }
    }
}

/// The message of each completion error.
pub open spec fn completion_error_message(e: CompletionError) -> Seq<char> {
    match e {
        CompletionError::MissingSegments => "missing completion segments in request"@,
        CompletionError::MissingFimPromptTemplate => "fim prompt template is not configured"@,
        CompletionError::InvalidFimPromptTemplate => "fim prompt template must contain both {prefix} and {suffix} placeholders"@,
    }
}

/// The placeholder replaced by the text before the cursor.
pub open spec fn prefix_marker() -> Seq<char> {
    seq!['{', 'p', 'r', 'e', 'f', 'i', 'x', '}']
}

/// The placeholder replaced by the text after the cursor.
pub open spec fn suffix_marker() -> Seq<char> {
    seq!['{', 's', 'u', 'f', 'f', 'i', 'x', '}']
}

/// The template with each placeholder replaced, read left to right: the
/// inserted texts are not searched again.
pub open spec fn render_spec(template: Seq<char>, prefix: Seq<char>, suffix: Seq<char>) -> Seq<char>
    decreases template.len(),
{
    if template.len() == 0 {
        Seq::empty()
    } else if starts_with(template, prefix_marker()) {
        prefix + render_spec(template.skip(8), prefix, suffix)
    } else if starts_with(template, suffix_marker()) {
        suffix + render_spec(template.skip(8), prefix, suffix)
    } else {
        seq![template[0]] + render_spec(template.skip(1), prefix, suffix)
    }
}

/// What `render_fim_prompt` gives for a template, a prefix and a suffix.
pub open spec fn render_fim_prompt_spec(template: Option<Seq<char>>, prefix: Seq<char>, suffix: Seq<char>) -> Result<Seq<char>, CompletionError> {
    match template {
        None => Err(CompletionError::MissingFimPromptTemplate),
        Some(t) => {
            if !contains_text(t, prefix_marker()) || !contains_text(t, suffix_marker()) {
                Err(CompletionError::InvalidFimPromptTemplate)
            } else {
                Ok(render_spec(t, prefix, suffix))
            }
        },
    }
}

proof fn lemma_render_step(t: Seq<char>, i: int, p: Seq<char>, s: Seq<char>)
    requires
        0 <= i < t.len(),
    ensures
        starts_with(t.skip(i), prefix_marker()) ==> render_spec(t.skip(i), p, s) == p + render_spec(t.skip(i + 8), p, s),
        !starts_with(t.skip(i), prefix_marker()) && starts_with(t.skip(i), suffix_marker())
            ==> render_spec(t.skip(i), p, s) == s + render_spec(t.skip(i + 8), p, s),
        !starts_with(t.skip(i), prefix_marker()) && !starts_with(t.skip(i), suffix_marker())
            ==> render_spec(t.skip(i), p, s) == seq![t[i]] + render_spec(t.skip(i + 1), p, s),
{
    let r = t.skip(i);
    assert(r.len() > 0);
    if starts_with(r, prefix_marker()) || starts_with(r, suffix_marker()) {
        assert(r.skip(8) == t.skip(i + 8));
    }
    assert(r.skip(1) == t.skip(i + 1));
    assert(r[0] == t[i]);
}

/// Fills a fill-in-the-middle template: each `{prefix}` is replaced by
/// `prefix` and each `{suffix}` by `suffix`, once, left to right.
pub fn render_fim_prompt(template: Option<&str>, prefix: &str, suffix: &str) -> (r: Result<String, CompletionError>)
    ensures
        match r {
            Ok(s) => render_fim_prompt_spec(
                match template {
                    Some(t) => Some(t@),
                    None => None,
                },
                prefix@,
                suffix@,
            ) == Ok::<Seq<char>, CompletionError>(s@),
            Err(e) => render_fim_prompt_spec(
                match template {
                    Some(t) => Some(t@),
                    None => None,
                },
                prefix@,
                suffix@,
            ) == Err::<Seq<char>, CompletionError>(e),
        },
{
    let template = match template {
        Some(t) => t,
        None => return Err(CompletionError::MissingFimPromptTemplate),
    };
    let t = chars_of(template);
    let prefix_m = chars_of("{prefix}");
    let suffix_m = chars_of("{suffix}");
    proof {
        reveal_strlit("{prefix}");
        reveal_strlit("{suffix}");
        assert(prefix_m@ == prefix_marker());
        assert(suffix_m@ == suffix_marker());
    }
    if !contains_chars(&t, &prefix_m) || !contains_chars(&t, &suffix_m) {
        return Err(CompletionError::InvalidFimPromptTemplate);
    }
    let p = chars_of(prefix);
    let s = chars_of(suffix);
    let mut out: Vec<char> = Vec::new();
    let mut i: usize = 0;
    proof {
        assert(t@.skip(0) == t@);
    }
    while i < t.len()
        invariant
            i <= t.len(),
            prefix_m@ == prefix_marker(),
            suffix_m@ == suffix_marker(),
            p@ == prefix@,
            s@ == suffix@,
            render_spec(t@, prefix@, suffix@) == out@ + render_spec(t@.skip(i as int), prefix@, suffix@),
        decreases t.len() - i,
    {
        proof {
            lemma_render_step(t@, i as int, prefix@, suffix@);
        }
        let rest = crate::text::slice_chars(&t, i, t.len());
        proof {
            assert(rest@ == t@.skip(i as int));
        }
        if starts_with_chars(&rest, &prefix_m) {
            let ghost before = out@;
            push_chars(&mut out, &p);
            proof {
                assert(before + (p@ + render_spec(t@.skip(i + 8), prefix@, suffix@)) == out@ + render_spec(t@.skip(i + 8), prefix@, suffix@));
            }
            i = i + 8;
        } else if starts_with_chars(&rest, &suffix_m) {
            let ghost before = out@;
            push_chars(&mut out, &s);
            proof {
                assert(before + (s@ + render_spec(t@.skip(i + 8), prefix@, suffix@)) == out@ + render_spec(t@.skip(i + 8), prefix@, suffix@));
            }
            i = i + 8;
        } else {
            let ghost before = out@;
            out.push(t[i]);
            proof {
                assert(before + (seq![t@[i as int]] + render_spec(t@.skip(i + 1), prefix@, suffix@)) == out@ + render_spec(t@.skip(i + 1), prefix@, suffix@));
            }
            i = i + 1;
        }
    }
    proof {
        assert(t@.skip(i as int).len() == 0);
        assert(out@ + Seq::<char>::empty() == out@);
    }
    Ok(string_from_chars(&out))
}

/// A declaration the editor found relevant to the completion.
#[derive(Debug)]
pub struct Declaration {
    pub filepath: String,
    pub body: String,
}

/// The text around the cursor, and what the editor knows of the code.
#[derive(Debug)]
pub struct Segments {
    pub prefix: String,
    pub suffix: Option<String>,
    pub filepath: Option<String>,
    pub git_url: Option<String>,
    pub declarations: Option<Vec<Declaration>>,
    pub clipboard: Option<String>,
}

/// Options that change what a completion request does.
#[derive(Debug)]
pub struct DebugOptions {
    pub raw_prompt: Option<String>,
    pub return_snippets: bool,
    pub return_prompt: bool,
    pub disable_retrieval_augmented_code_completion: bool,
}

/// The default of the boolean debug options.
pub fn default_false() -> (r: bool)
    ensures
        r == false,
{
    false
}

/// A completion request (the sampling temperature travels beside it).
#[derive(Debug)]
pub struct CompletionRequest {
    pub language: Option<String>,
    pub segments: Option<Segments>,
    pub user: Option<String>,
    pub debug_options: Option<DebugOptions>,
    pub seed: Option<u64>,
    pub model: String,
}

/// The prefix and suffix a request asks to complete between.
pub open spec fn fim_segments_spec(r: CompletionRequest) -> Result<(Seq<char>, Seq<char>), CompletionError> {
    match r.segments {
        None => Err(CompletionError::MissingSegments),
        Some(seg) => Ok((
            seg.prefix@,
            match seg.suffix {
                Some(s) => s@,
                None => Seq::empty(),
            },
        )),
    }
}

impl CompletionRequest {
    /// The text before and after the cursor; a missing suffix is empty.
    pub fn fim_segments(&self) -> (r: Result<(&str, &str), CompletionError>)
        ensures
            match r {
                Ok((p, s)) => fim_segments_spec(*self) == Ok::<(Seq<char>, Seq<char>), CompletionError>((p@, s@)),
                Err(e) => fim_segments_spec(*self) == Err::<(Seq<char>, Seq<char>), CompletionError>(e),
            },
    {
        match &self.segments {
            None => Err(CompletionError::MissingSegments),
            Some(segments) => {
                let suffix: &str = match &segments.suffix {
                    Some(s) => s.as_str(),
                    None => "",
                };
                proof {
                    reveal_strlit("");
                    assert(""@ =~= Seq::<char>::empty());
                }
                Ok((segments.prefix.as_str(), suffix))
            },
        }
    }

    /// Whether the request carries a raw prompt in its debug options.
    pub fn has_raw_prompt(&self) -> (r: bool)
        ensures
            r == (self.debug_options matches Some(d) && d.raw_prompt is Some),
    {
        match &self.debug_options {
            Some(d) => d.raw_prompt.is_some(),
            None => false,
        }
    }
}

/// How a model completes code natively.
#[derive(Debug)]
pub enum NativeFimMode {
    /// The model takes the prefix as prompt and the suffix beside it.
    CompletionsSuffix,
    /// The prompt is the model's template with the prefix and suffix filled in.
    FimTokens,
}

/// What of a model the completion route reads.
#[derive(Debug)]
pub struct CompletionModel {
    pub name: String,
    pub variant: String,
    pub max_generated_tokens: i64,
    pub native_fim_mode: Option<NativeFimMode>,
    pub fim_prompt_template: Option<String>,
}

/// The payload sent to a provider's native completion endpoint (the
/// temperature is added beside it).
#[derive(Debug)]
pub struct NativeCompletionPayload {
    pub model: String,
    pub prompt: String,
    pub max_tokens: i64,
    pub stream: bool,
    pub suffix: Option<String>,
    pub seed: Option<u64>,
}

/// What `build_provider_payload` gives: a raw prompt as it is, with the
/// segments ignored; otherwise the prompt (and suffix) by the model's native
/// mode, or the error reported to the client.
pub open spec fn payload_prompt_spec(request: CompletionRequest, model: CompletionModel) -> Result<(Seq<char>, Option<Seq<char>>), Seq<char>> {
    match raw_prompt_spec(request) {
        Some(p) => Ok((p, None)),
        None => segments_prompt_spec(request, model),
    }
}

/// The raw prompt a request carries in its debug options, if any.
pub open spec fn raw_prompt_spec(request: CompletionRequest) -> Option<Seq<char>> {
    match request.debug_options {
        Some(d) => match d.raw_prompt {
            Some(p) => Some(p@),
            None => None,
        },
        None => None,
    }
}

/// The prompt (and suffix) built from a request's segments by the model's
/// native mode, or the error reported to the client.
pub open spec fn segments_prompt_spec(request: CompletionRequest, model: CompletionModel) -> Result<(Seq<char>, Option<Seq<char>>), Seq<char>> {
    match fim_segments_spec(request) {
        Err(e) => Err(completion_error_message(e)),
        Ok((p, s)) => match model.native_fim_mode {
            Some(NativeFimMode::CompletionsSuffix) => Ok((p, Some(s))),
            Some(NativeFimMode::FimTokens) => match render_fim_prompt_spec(opt_view(model.fim_prompt_template), p, s) {
                Ok(prompt) => Ok((prompt, None)),
                Err(e) => Err(completion_error_message(e)),
            },
            None => Err("unsupported-native-fim"@),
        },
    }
}

/// Builds the payload for a provider's native completion endpoint. A raw
/// prompt in the debug options goes to the engine as it is, and the segments
/// are ignored. Errors are bad requests with the message the client sees.
pub fn build_provider_payload(request: &CompletionRequest, model: &CompletionModel) -> (r: Result<NativeCompletionPayload, ShaideError>)
    ensures
        match r {
            Ok(payload) => {
                &&& payload_prompt_spec(*request, *model) == Ok::<(Seq<char>, Option<Seq<char>>), Seq<char>>((payload.prompt@, opt_view(payload.suffix)))
                &&& payload.model@ == model.variant@
                &&& payload.max_tokens == model.max_generated_tokens
                &&& !payload.stream
                &&& payload.seed == request.seed
            },
            Err(e) => e is BadRequestWithMessage
                && payload_prompt_spec(*request, *model) == Err::<(Seq<char>, Option<Seq<char>>), Seq<char>>(e->BadRequestWithMessage_0@),
        },
{
    match &request.debug_options {
        Some(d) => match &d.raw_prompt {
            Some(p) => {
                return Ok(NativeCompletionPayload {
                    model: model.variant.clone(),
                    prompt: p.clone(),
                    max_tokens: model.max_generated_tokens,
                    stream: false,
                    suffix: None,
                    seed: request.seed,
                });
            },
            None => {},
        },
        None => {},
    }
    let (prefix, suffix) = match request.fim_segments() {
        Ok(ps) => ps,
        Err(e) => return Err(ShaideError::BadRequestWithMessage(e.message())),
    };
    let (prompt, suffix) = match &model.native_fim_mode {
        Some(NativeFimMode::CompletionsSuffix) => (owned(prefix), Some(owned(suffix))),
        Some(NativeFimMode::FimTokens) => {
            let template: Option<&str> = match &model.fim_prompt_template {
                Some(t) => Some(t.as_str()),
                None => None,
            };
            match render_fim_prompt(template, prefix, suffix) {
                Ok(prompt) => (prompt, None),
                Err(e) => return Err(ShaideError::BadRequestWithMessage(e.message())),
            }
        },
        None => return Err(ShaideError::BadRequestWithMessage(owned("unsupported-native-fim"))),
    };
    Ok(NativeCompletionPayload {
        model: model.variant.clone(),
        prompt,
        max_tokens: model.max_generated_tokens,
        stream: false,
        suffix,
        seed: request.seed,
    })
}

/// A part of a chat-style message content.
#[derive(Debug)]
pub struct ProviderMessageContentPart {
    pub text: Option<String>,
}

/// The content of a chat-style message in a provider's answer.
#[derive(Debug)]
pub enum ProviderMessageContent {
    Text(String),
    Parts(Vec<ProviderMessageContentPart>),
}

/// A chat-style message in a provider's answer.
#[derive(Debug)]
pub struct ProviderMessage {
    pub content: ProviderMessageContent,
}

/// One choice of a provider's answer.
#[derive(Debug)]
pub enum ProviderChoice {
    Text { text: String },
    Message { message: ProviderMessage },
}

/// A text block of a content-style answer.
#[derive(Debug)]
pub struct ProviderContentPart {
    pub text: String,
}

/// The two shapes a provider's completion answer comes in.
#[derive(Debug)]
pub enum ProviderCompletionBody {
    Choices { choices: Vec<ProviderChoice> },
    Content { content: Vec<ProviderContentPart> },
}

/// A provider's answer to a native completion request.
#[derive(Debug)]
pub struct ProviderCompletionResponse {
    pub id: Option<String>,
    pub body: ProviderCompletionBody,
}

/// The concatenated texts of the message parts that have one.
pub open spec fn parts_text(parts: Seq<ProviderMessageContentPart>) -> Seq<char>
    decreases parts.len(),
{
    if parts.len() == 0 {
        Seq::empty()
    } else {
        parts_text(parts.drop_last()) + match parts.last().text {
            Some(t) => t@,
            None => Seq::empty(),
        }
    }
}

/// The concatenated texts of content blocks.
pub open spec fn content_text(parts: Seq<ProviderContentPart>) -> Seq<char>
    decreases parts.len(),
{
    if parts.len() == 0 {
        Seq::empty()
    } else {
        content_text(parts.drop_last()) + parts.last().text@
    }
}

/// A text, unless it is empty.
pub open spec fn non_empty(t: Seq<char>) -> Option<Seq<char>> {
    if t.len() == 0 {
        None
    } else {
        Some(t)
    }
}

/// The completion text of a provider's answer: the first choice's text, or
/// all content blocks together; `None` when there is none.
pub open spec fn extract_text_spec(response: ProviderCompletionResponse) -> Option<Seq<char>> {
    match response.body {
        ProviderCompletionBody::Choices { choices } => {
            if choices.len() == 0 {
                None
            } else {
                match choices[0] {
                    ProviderChoice::Text { text } => Some(text@),
                    ProviderChoice::Message { message } => match message.content {
                        ProviderMessageContent::Text(text) => Some(text@),
                        ProviderMessageContent::Parts(parts) => non_empty(parts_text(parts@)),
                    },
                }
            }
        },
        ProviderCompletionBody::Content { content } => non_empty(content_text(content@)),
    }
}

/// Reads the completion text out of a provider's answer.
pub fn extract_text_from_provider_response(response: &ProviderCompletionResponse) -> (r: Option<String>)
    ensures
        opt_view(r) == extract_text_spec(*response),
{
    match &response.body {
        ProviderCompletionBody::Choices { choices } => {
            if choices.len() == 0 {
                return None;
            }
            match &choices[0] {
                ProviderChoice::Text { text } => Some(text.clone()),
                ProviderChoice::Message { message } => match &message.content {
                    ProviderMessageContent::Text(text) => Some(text.clone()),
                    ProviderMessageContent::Parts(parts) => {
                        let mut out: Vec<char> = Vec::new();
                        let mut i: usize = 0;
                        while i < parts.len()
                            invariant
                                i <= parts.len(),
                                out@ == parts_text(parts@.take(i as int)),
                            decreases parts.len() - i,
                        {
                            proof {
                                assert(parts@.take(i + 1).drop_last() == parts@.take(i as int));
                            }
                            match &parts[i].text {
                                Some(t) => push_str(&mut out, t.as_str()),
                                None => {
                                    proof {
                                        assert(out@ + Seq::<char>::empty() == out@);
                                    }
                                },
                            }
                            i = i + 1;
                        }
                        proof {
                            assert(parts@.take(parts.len() as int) == parts@);
                        }
                        if out.len() == 0 {
                            None
                        } else {
                            Some(string_from_chars(&out))
                        }
                    },
                },
            }
        },
        ProviderCompletionBody::Content { content } => {
            let mut out: Vec<char> = Vec::new();
            let mut i: usize = 0;
            while i < content.len()
                invariant
                    i <= content.len(),
                    out@ == content_text(content@.take(i as int)),
                decreases content.len() - i,
            {
                proof {
                    assert(content@.take(i + 1).drop_last() == content@.take(i as int));
                }
                push_str(&mut out, content[i].text.as_str());
                i = i + 1;
            }
            proof {
                assert(content@.take(content.len() as int) == content@);
            }
            if out.len() == 0 {
                None
            } else {
                Some(string_from_chars(&out))
            }
        },
    }
}

/// One completion choice.
#[derive(Debug)]
pub struct Choice {
    pub index: u32,
    pub text: String,
}

impl Choice {
    /// The first (and only) choice, with the given text.
    pub fn new(text: String) -> (r: Self)
        ensures
            r.index == 0,
            r.text == text,
    {
        Choice { index: 0, text }
    }
}

/// The answer to a completion request.
#[derive(Debug)]
pub struct CompletionResponse {
    pub id: String,
    pub choices: Vec<Choice>,
}

impl CompletionResponse {
    /// An answer from its id and choices.
    pub fn new(id: String, choices: Vec<Choice>) -> (r: Self)
        ensures
            r.id == id,
            r.choices == choices,
    {
        CompletionResponse { id, choices }
    }
}

/// Turns a provider's answer into the completion answer: its id (or
/// `fallback_id` when it has none) and one choice with its text. An answer
/// without text is an internal error.
pub fn map_provider_response_with_id(response: ProviderCompletionResponse, fallback_id: String) -> (r: Result<CompletionResponse, ShaideError>)
    ensures
        match r {
            Ok(c) => {
                &&& extract_text_spec(response) == Some(c.choices@[0].text@)
                &&& c.choices@.len() == 1
                &&& c.choices@[0].index == 0
                &&& c.id@ == (match response.id {
                    Some(id) => id@,
                    None => fallback_id@,
                })
            },
            Err(e) => extract_text_spec(response) is None && e is InternalServerError,
        },
{
    let text = match extract_text_from_provider_response(&response) {
        Some(t) => t,
        None => return Err(ShaideError::InternalServerError(
            owned("provider completion response did not contain a text choice"),
        )),
    };
    let id = match response.id {
        Some(id) => id,
        None => fallback_id,
    };
    let mut choices: Vec<Choice> = Vec::new();
    choices.push(Choice::new(text));
    Ok(CompletionResponse::new(id, choices))
}

/// A random (version 4) UUID in its hyphenated form, from
/// `uuid::Uuid::new_v4`; chance decides it, so nothing is claimed of it.
#[verifier::external_body]
fn new_uuid_v4() -> String {
    uuid::Uuid::new_v4().to_string()
}

/// Turns a provider's answer into the completion answer; an answer without
/// an id gets "cmpl-" and a fresh random UUID.
pub fn map_provider_response(response: ProviderCompletionResponse) -> (r: Result<CompletionResponse, ShaideError>)
    ensures
        match r {
            Ok(c) => {
                &&& extract_text_spec(response) == Some(c.choices@[0].text@)
                &&& c.choices@.len() == 1
                &&& c.choices@[0].index == 0
                &&& match response.id {
                    Some(id) => c.id@ == id@,
                    None => c.id@.len() >= 5 && c.id@.take(5) == "cmpl-"@,
                }
            },
            Err(e) => extract_text_spec(response) is None && e is InternalServerError,
        },
{
    let fallback = match &response.id {
        Some(_) => String::new(),
        None => {
            let id = new_uuid_v4();
            crate::text::concat2("cmpl-", id.as_str())
        },
    };
    proof {
        reveal_strlit("cmpl-");
        if response.id is None {
            assert(fallback@.take(5) =~= "cmpl-"@);
        }
    }
    map_provider_response_with_id(response, fallback)
}

/// Where a completion request goes and what is sent.
#[derive(Debug)]
pub struct CompletionPlan {
    /// The model's native completion endpoint.
    pub endpoint: String,
    /// The request goes to Google Cloud; otherwise to the in-house provider.
    pub vertex: bool,
    /// The payload sent.
    pub payload: NativeCompletionPayload,
}

/// Plans a completion request for a model: the model needs a native
/// completion endpoint, the payload is built by its native mode, and the
/// request goes to Google Cloud when the model's platform is "vertex".
pub fn plan_completion(request: &CompletionRequest, model: &CompletionModel, completions_endpoint: Option<&str>, platform: Option<&str>) -> (r: Result<CompletionPlan, ShaideError>)
    ensures
        match completions_endpoint {
            None => r matches Err(ShaideError::BadRequestWithMessage(m)) && m@ == "unsupported-native-fim"@,
            Some(endpoint) => match payload_prompt_spec(*request, *model) {
                Err(m) => r matches Err(ShaideError::BadRequestWithMessage(e)) && e@ == m,
                Ok((prompt, suffix)) => r matches Ok(plan) && plan.endpoint@ == endpoint@ && plan.vertex == (match platform {
                    Some(p) => p@ == "vertex"@,
                    None => false,
                }) && plan.payload.prompt@ == prompt && opt_view(plan.payload.suffix) == suffix && plan.payload.model@ == model.variant@
                    && plan.payload.max_tokens == model.max_generated_tokens && !plan.payload.stream && plan.payload.seed == request.seed,
            },
        },
{
    let endpoint = match completions_endpoint {
        Some(e) => owned(e),
        None => return Err(ShaideError::BadRequestWithMessage(owned("unsupported-native-fim"))),
    };
    let payload = match build_provider_payload(request, model) {
        Ok(p) => p,
        Err(e) => return Err(e),
    };
    let vertex = match platform {
        Some(p) => crate::text::eq_str(p, "vertex"),
        None => false,
    };
    Ok(CompletionPlan { endpoint, vertex, payload })
}

} // verus!
