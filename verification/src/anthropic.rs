//! Anthropic models on Vertex: chat requests mapped to Anthropic messages,
//! and Anthropic's streamed events mapped back to chat completion chunks.
use vstd::prelude::*;

use crate::chat_collect::{ChoiceDelta, FinishReason, StreamChunk, Usage};
use crate::chat_request::{
    base64_marker, has_base64_marker, AssistantContent, AssistantContentPart, ChatMessage, ChatRequest,
    SystemContent, UserContent, UserContentPart,
};
use crate::error::{opt_view, ShaideError};
use crate::text::{chars_of, find_char, owned, push_str, slice_chars, split_all, split_once, split_once_chars,
    string_from_chars};

verus! {

/// The output token count Anthropic sends near the end of a stream.
#[derive(Debug, Clone, Copy)]
pub struct AnthropicOutputUsage {
    pub output_tokens: Option<u32>,
}

/// Token counts of a started message (the output count is not final).
#[derive(Debug, Clone, Copy)]
pub struct AnthropicUsage {
    pub output_tokens: Option<u32>,
    pub input_tokens: Option<u32>,
}

/// The changing part of a streamed event.
#[derive(Debug)]
pub struct AnthropicDelta {
    pub delta_type: Option<String>,
    pub text: Option<String>,
    pub stop_reason: Option<String>,
}

/// The message an event stream starts with.
#[derive(Debug)]
pub struct AnthropicStreamMessage {
    pub id: Option<String>,
    pub usage: Option<AnthropicUsage>,
}

/// One event of an Anthropic stream.
#[derive(Debug)]
pub struct AnthropicStreamCompletionResponse {
    pub event_type: Option<String>,
    pub index: Option<i64>,
    pub delta: Option<AnthropicDelta>,
    pub message: Option<AnthropicStreamMessage>,
    pub usage: Option<AnthropicOutputUsage>,
}

/// The chat finish reason for an Anthropic stop reason.
pub open spec fn finish_reason_spec(stop: Seq<char>) -> FinishReason {
    if stop == "max_tokens"@ || stop == "model_context_window"@ {
        FinishReason::Length
    } else if stop == "tool_use"@ {
        FinishReason::ToolCalls
    } else if stop == "refusal"@ {
        FinishReason::ContentFilter
    } else {
        FinishReason::Stop
    }
}

/// Whether a text equals a string literal.
fn text_is(t: &String, lit: &str) -> (r: bool)
    ensures
        r == (t@ == lit@),
{
    let a = chars_of(t.as_str());
    let b = chars_of(lit);
    if a.len() != b.len() {
        return false;
    }
    let mut i: usize = 0;
    while i < a.len()
        invariant
            a@ == t@,
            b@ == lit@,
            a.len() == b.len(),
            i <= a.len(),
            forall|j: int| 0 <= j < i ==> a@[j] == b@[j],
        decreases a.len() - i,
    {
        if a[i] != b[i] {
            return false;
        }
        i = i + 1;
    }
    proof {
        assert(a@ =~= b@);
    }
    true
}

impl AnthropicStreamCompletionResponse {
    /// Whether this event ends the stream.
    pub fn stream_ending(&self) -> (r: bool)
        ensures
            r == (self.event_type matches Some(t) && t@ == "message_stop"@),
    {
        match &self.event_type {
            Some(t) => text_is(t, "message_stop"),
            None => false,
        }
    }

    /// The id of the message, when this event starts one.
    pub fn id(&self) -> (r: Option<String>)
        ensures
            opt_view(r) == (match self.message {
                Some(m) => opt_view(m.id),
                None => None,
            }),
    {
        match &self.message {
            Some(m) => crate::error::clone_opt(&m.id),
            None => None,
        }
    }

    /// The text this event adds.
    pub fn text(&self) -> (r: Option<String>)
        ensures
            opt_view(r) == (match self.delta {
                Some(d) => opt_view(d.text),
                None => None,
            }),
    {
        match &self.delta {
            Some(d) => crate::error::clone_opt(&d.text),
            None => None,
        }
    }

    /// The input token count of a started message.
    pub fn input_tokens(&self) -> (r: Option<u32>)
        ensures
            r == (match self.message {
                Some(AnthropicStreamMessage { usage: Some(u), .. }) => u.input_tokens,
                _ => None,
            }),
    {
        match &self.message {
            Some(m) => match &m.usage {
                Some(u) => u.input_tokens,
                None => None,
            },
            None => None,
        }
    }

    /// The final output token count.
    pub fn output_tokens(&self) -> (r: Option<u32>)
        ensures
            r == (match self.usage {
                Some(u) => u.output_tokens,
                None => None,
            }),
    {
        match &self.usage {
            Some(u) => u.output_tokens,
            None => None,
        }
    }

    /// The chat finish reason, when this event carries a stop reason.
    pub fn finish_reason(&self) -> (r: Option<FinishReason>)
        ensures
            r == (match self.delta {
                Some(AnthropicDelta { stop_reason: Some(s), .. }) => Some(finish_reason_spec(s@)),
                _ => None,
            }),
    {
        let stop = match &self.delta {
            Some(d) => match &d.stop_reason {
                Some(s) => s,
                None => return None,
            },
            None => return None,
        };
        if text_is(stop, "max_tokens") || text_is(stop, "model_context_window") {
            Some(FinishReason::Length)
        } else if text_is(stop, "tool_use") {
            Some(FinishReason::ToolCalls)
        } else if text_is(stop, "refusal") {
            Some(FinishReason::ContentFilter)
        } else {
            Some(FinishReason::Stop)
        }
    }
}

/// Where an image comes from.
#[derive(Debug)]
pub enum AnthropicImageSource {
    Url { url: String },
    Base64 { media_type: String, data: String },
}

/// A block of an Anthropic message.
#[derive(Debug)]
pub enum AnthropicMessageContent {
    Text { text: String },
    Image { source: AnthropicImageSource },
}

/// The scheme and path the `url` crate reads from a text; `None` when the
/// text is not a URL.
pub uninterp spec fn url_scheme_path(input: Seq<char>) -> Option<(Seq<char>, Seq<char>)>;

/// Parses a URL into its scheme and path.
///
/// Calls `url::Url::parse`, then `scheme` and `path` of the result. The
/// contract claims only that the outcome is a function of the input text.
#[verifier::external_body]
fn parse_url(input: &str) -> (r: Option<(String, String)>)
    ensures
        match r {
            Some((s, p)) => url_scheme_path(input@) == Some((s@, p@)),
            None => url_scheme_path(input@) is None,
        },
{
    match url::Url::parse(input) {
        Ok(u) => Some((u.scheme().to_owned(), u.path().to_owned())),
        Err(_) => None,
    }
}

/// The media type and payload of a base64 `data:` URL: the path up to the
/// first `,` holds the media type and then parameters, one of which must be
/// `base64`.
pub open spec fn data_url_source_spec(url: Seq<char>) -> Option<(Seq<char>, Seq<char>)> {
    match url_scheme_path(url) {
        None => None,
        Some((scheme, path)) => {
            if scheme != "data"@ {
                None
            } else {
                match split_once(path, ',') {
                    None => None,
                    Some((meta, data)) => match split_once(meta, ';') {
                        None => None,
                        Some((mime, params)) => {
                            if has_base64_marker(params) {
                                Some((mime, data))
                            } else {
                                None
                            }
                        },
                    },
                }
            }
        },
    }
}

/// Reads the media type and base64 payload out of a `data:` URL.
pub fn parse_data_url_to_base64_source(url: &str) -> (r: Option<(String, String)>)
    ensures
        match r {
            Some((m, d)) => data_url_source_spec(url@) == Some((m@, d@)),
            None => data_url_source_spec(url@) is None,
        },
{
    let (scheme, path) = match parse_url(url) {
        Some(p) => p,
        None => return None,
    };
    if !text_is(&scheme, "data") {
        return None;
    }
    let path_chars = chars_of(path.as_str());
    let (meta, data) = match split_once_chars(&path_chars, ',') {
        Some(p) => p,
        None => return None,
    };
    let (mime, params) = match split_once_chars(&meta, ';') {
        Some(p) => p,
        None => return None,
    };
    if base64_marker(&params) {
        Some((string_from_chars(&mime), string_from_chars(&data)))
    } else {
        None
    }
}

/// The view of a message block: text, an image by URL, or a base64 image.
pub enum ContentView {
    Text(Seq<char>),
    ImageUrl(Seq<char>),
    ImageBase64(Seq<char>, Seq<char>),
}

impl View for AnthropicMessageContent {
    type V = ContentView;

    open spec fn view(&self) -> ContentView {
        match self {
            AnthropicMessageContent::Text { text } => ContentView::Text(text@),
            AnthropicMessageContent::Image { source: AnthropicImageSource::Url { url } } => ContentView::ImageUrl(url@),
            AnthropicMessageContent::Image { source: AnthropicImageSource::Base64 { media_type, data } } => ContentView::ImageBase64(
                media_type@,
                data@,
            ),
        }
    }
}

/// The block for an image URL: inline base64 images are sent as data, all
/// other images by URL.
pub open spec fn image_block_spec(url: Seq<char>) -> ContentView {
    match data_url_source_spec(url) {
        Some((m, d)) => ContentView::ImageBase64(m, d),
        None => ContentView::ImageUrl(url),
    }
}

impl AnthropicMessageContent {
    /// A text block.
    pub fn text(text: String) -> (r: Self)
        ensures
            r@ == ContentView::Text(text@),
    {
        AnthropicMessageContent::Text { text }
    }

    /// An image block for a URL.
    pub fn image_url(url: String) -> (r: Self)
        ensures
            r@ == image_block_spec(url@),
    {
        match parse_data_url_to_base64_source(url.as_str()) {
            Some((media_type, data)) => AnthropicMessageContent::Image {
                source: AnthropicImageSource::Base64 { media_type, data },
            },
            None => AnthropicMessageContent::Image { source: AnthropicImageSource::Url { url } },
        }
    }
}

/// An Anthropic message.
#[derive(Debug)]
pub struct AnthropicMessage {
    pub role: String,
    pub content: Vec<AnthropicMessageContent>,
}

impl AnthropicMessage {
    /// A message from its role and blocks.
    pub fn new(role: String, content: Vec<AnthropicMessageContent>) -> (r: Self)
        ensures
            r.role == role,
            r.content == content,
    {
        AnthropicMessage { role, content }
    }
}

/// The views of message blocks.
pub open spec fn contents_view(v: Seq<AnthropicMessageContent>) -> Seq<ContentView> {
    v.map_values(|c: AnthropicMessageContent| c@)
}

/// The block for one part of a user message; audio and files are refused.
pub open spec fn user_part_spec(p: UserContentPart) -> Result<ContentView, Seq<char>> {
    match p {
        UserContentPart::Text(t) => Ok(ContentView::Text(t@)),
        UserContentPart::ImageUrl(u) => Ok(image_block_spec(u@)),
        UserContentPart::InputAudio => Err("Anthropic message mapping does not support audio input"@),
        UserContentPart::File => Err("Anthropic message mapping does not support file input"@),
    }
}

/// The blocks for parts of a user message, or the first refusal.
pub open spec fn user_parts_spec(parts: Seq<UserContentPart>) -> Result<Seq<ContentView>, Seq<char>>
    decreases parts.len(),
{
    if parts.len() == 0 {
        Ok(Seq::empty())
    } else {
        match user_parts_spec(parts.drop_last()) {
            Err(m) => Err(m),
            Ok(prev) => match user_part_spec(parts.last()) {
                Err(m) => Err(m),
                Ok(b) => Ok(prev.push(b)),
            },
        }
    }
}

/// The blocks for a user message.
pub open spec fn user_content_spec(c: UserContent) -> Result<Seq<ContentView>, Seq<char>> {
    match c {
        UserContent::Text(t) => Ok(seq![ContentView::Text(t@)]),
        UserContent::Array(parts) => user_parts_spec(parts@),
    }
}

proof fn lemma_user_parts_err(s: Seq<UserContentPart>, j: int, k: int)
    requires
        0 <= j <= k <= s.len(),
        user_parts_spec(s.take(j)) is Err,
    ensures
        user_parts_spec(s.take(k)) == user_parts_spec(s.take(j)),
    decreases k - j,
{
    if k > j {
        lemma_user_parts_err(s, j, k - 1);
        assert(s.take(k).drop_last() == s.take(k - 1));
    }
}

proof fn lemma_assistant_parts_err(s: Seq<AssistantContentPart>, j: int, k: int)
    requires
        0 <= j <= k <= s.len(),
        assistant_parts_spec(s.take(j)) is Err,
    ensures
        assistant_parts_spec(s.take(k)) == assistant_parts_spec(s.take(j)),
    decreases k - j,
{
    if k > j {
        lemma_assistant_parts_err(s, j, k - 1);
        assert(s.take(k).drop_last() == s.take(k - 1));
    }
}

proof fn lemma_messages_err(s: Seq<ChatMessage>, j: int, k: int)
    requires
        0 <= j <= k <= s.len(),
        messages_spec(s.take(j)) is Err,
    ensures
        messages_spec(s.take(k)) == messages_spec(s.take(j)),
    decreases k - j,
{
    if k > j {
        lemma_messages_err(s, j, k - 1);
        assert(s.take(k).drop_last() == s.take(k - 1));
    }
}

/// Maps the content of a user message to Anthropic blocks.
pub fn map_open_ai_chat_completion_request_user_messsage_to_anthropic_message(request: &UserContent) -> (r: Result<Vec<AnthropicMessageContent>, ShaideError>)
    ensures
        match r {
            Ok(v) => user_content_spec(*request) == Ok::<Seq<ContentView>, Seq<char>>(contents_view(v@)),
            Err(e) => e is BadRequest && user_content_spec(*request) == Err::<Seq<ContentView>, Seq<char>>(e->BadRequest_0@),
        },
{
    match request {
        UserContent::Text(text) => {
            let mut v: Vec<AnthropicMessageContent> = Vec::new();
            v.push(AnthropicMessageContent::text(text.clone()));
            proof {
                assert(contents_view(v@) =~= seq![ContentView::Text(text@)]);
            }
            Ok(v)
        },
        UserContent::Array(parts) => {
            let mut v: Vec<AnthropicMessageContent> = Vec::new();
            let mut i: usize = 0;
            proof {
                assert(parts@.take(0) =~= Seq::<UserContentPart>::empty());
                assert(contents_view(v@) =~= Seq::<ContentView>::empty());
            }
            while i < parts.len()
                invariant
                    i <= parts.len(),
                    user_parts_spec(parts@.take(i as int)) == Ok::<Seq<ContentView>, Seq<char>>(contents_view(v@)),
                    user_content_spec(*request) == user_parts_spec(parts@),
                decreases parts.len() - i,
            {
                proof {
                    assert(parts@.take(i + 1).drop_last() == parts@.take(i as int));
                    assert(parts@.take(i + 1).last() == parts@[i as int]);
                }
                let block = match &parts[i] {
                    UserContentPart::Text(t) => AnthropicMessageContent::text(t.clone()),
                    UserContentPart::ImageUrl(u) => AnthropicMessageContent::image_url(u.clone()),
                    UserContentPart::InputAudio => {
                        proof {
                            lemma_user_parts_err(parts@, i + 1, parts@.len() as int);
                            assert(parts@.take(parts@.len() as int) == parts@);
                        }
                        return Err(ShaideError::BadRequest(owned(
                            "Anthropic message mapping does not support audio input",
                        )));
                    },
                    UserContentPart::File => {
                        proof {
                            lemma_user_parts_err(parts@, i + 1, parts@.len() as int);
                            assert(parts@.take(parts@.len() as int) == parts@);
                        }
                        return Err(ShaideError::BadRequest(owned(
                            "Anthropic message mapping does not support file input",
                        )));
                    },
                };
                let ghost before = v@;
                v.push(block);
                proof {
                    assert(contents_view(v@) =~= contents_view(before).push(block@));
                }
                i = i + 1;
            }
            proof {
                assert(parts@.take(parts.len() as int) == parts@);
            }
            Ok(v)
        },
    }
}

/// The blocks for parts of an assistant message, or the first refusal.
pub open spec fn assistant_parts_spec(parts: Seq<AssistantContentPart>) -> Result<Seq<ContentView>, Seq<char>>
    decreases parts.len(),
{
    if parts.len() == 0 {
        Ok(Seq::empty())
    } else {
        match assistant_parts_spec(parts.drop_last()) {
            Err(m) => Err(m),
            Ok(prev) => match parts.last() {
                AssistantContentPart::Text(t) => Ok(prev.push(ContentView::Text(t@))),
                AssistantContentPart::Refusal(_) => Err("Anthropic message mapping does not support assistant refusals"@),
            },
        }
    }
}

/// The blocks for an assistant message.
pub open spec fn assistant_content_spec(c: AssistantContent) -> Result<Seq<ContentView>, Seq<char>> {
    match c {
        AssistantContent::Text(t) => Ok(seq![ContentView::Text(t@)]),
        AssistantContent::Array(parts) => assistant_parts_spec(parts@),
    }
}

/// Maps the content of an assistant message to Anthropic blocks.
pub fn map_open_ai_chat_completion_request_assistant_to_anthropic_message(request: &AssistantContent) -> (r: Result<Vec<AnthropicMessageContent>, ShaideError>)
    ensures
        match r {
            Ok(v) => assistant_content_spec(*request) == Ok::<Seq<ContentView>, Seq<char>>(contents_view(v@)),
            Err(e) => e is BadRequest && assistant_content_spec(*request) == Err::<Seq<ContentView>, Seq<char>>(e->BadRequest_0@),
        },
{
    match request {
        AssistantContent::Text(text) => {
            let mut v: Vec<AnthropicMessageContent> = Vec::new();
            v.push(AnthropicMessageContent::text(text.clone()));
            proof {
                assert(contents_view(v@) =~= seq![ContentView::Text(text@)]);
            }
            Ok(v)
        },
        AssistantContent::Array(parts) => {
            let mut v: Vec<AnthropicMessageContent> = Vec::new();
            let mut i: usize = 0;
            proof {
                assert(parts@.take(0) =~= Seq::<AssistantContentPart>::empty());
                assert(contents_view(v@) =~= Seq::<ContentView>::empty());
            }
            while i < parts.len()
                invariant
                    i <= parts.len(),
                    assistant_parts_spec(parts@.take(i as int)) == Ok::<Seq<ContentView>, Seq<char>>(contents_view(v@)),
                    assistant_content_spec(*request) == assistant_parts_spec(parts@),
                decreases parts.len() - i,
            {
                proof {
                    assert(parts@.take(i + 1).drop_last() == parts@.take(i as int));
                    assert(parts@.take(i + 1).last() == parts@[i as int]);
                }
                let text = match &parts[i] {
                    AssistantContentPart::Text(t) => t.clone(),
                    AssistantContentPart::Refusal(_) => {
                        proof {
                            lemma_assistant_parts_err(parts@, i + 1, parts@.len() as int);
                            assert(parts@.take(parts@.len() as int) == parts@);
                        }
                        return Err(ShaideError::BadRequest(owned(
                            "Anthropic message mapping does not support assistant refusals",
                        )));
                    },
                };
                let block = AnthropicMessageContent::text(text);
                let ghost before = v@;
                v.push(block);
                proof {
                    assert(contents_view(v@) =~= contents_view(before).push(block@));
                }
                i = i + 1;
            }
            proof {
                assert(parts@.take(parts.len() as int) == parts@);
            }
            Ok(v)
        },
    }
}

/// The texts of a list, joined.
pub open spec fn joined(texts: Seq<String>) -> Seq<char>
    decreases texts.len(),
{
    if texts.len() == 0 {
        Seq::empty()
    } else {
        joined(texts.drop_last()) + texts.last()@
    }
}

/// The system prompt of a system message: its text, or its parts joined.
pub open spec fn system_spec(c: SystemContent) -> Seq<char> {
    match c {
        SystemContent::Text(t) => t@,
        SystemContent::Array(parts) => joined(parts@),
    }
}

/// Maps a system message to Anthropic's system prompt.
pub fn map_open_ai_system_request_to_anthropic(request: &SystemContent) -> (r: String)
    ensures
        r@ == system_spec(*request),
{
    match request {
        SystemContent::Text(text) => text.clone(),
        SystemContent::Array(texts) => {
            let mut out: Vec<char> = Vec::new();
            let mut i: usize = 0;
            while i < texts.len()
                invariant
                    i <= texts.len(),
                    out@ == joined(texts@.take(i as int)),
                decreases texts.len() - i,
            {
                proof {
                    assert(texts@.take(i + 1).drop_last() == texts@.take(i as int));
                }
                push_str(&mut out, texts[i].as_str());
                i = i + 1;
            }
            proof {
                assert(texts@.take(texts.len() as int) == texts@);
            }
            string_from_chars(&out)
        },
    }
}

/// A request to an Anthropic model.
#[derive(Debug)]
pub struct CreateChatCompletionAnthropicRequest {
    pub anthropic_version: String,
    pub system: Option<String>,
    pub messages: Vec<AnthropicMessage>,
    pub max_tokens: u32,
    pub stream: bool,
}

impl CreateChatCompletionAnthropicRequest {
    /// A request from its parts.
    pub fn new(anthropic_version: String, messages: Vec<AnthropicMessage>, max_tokens: u32, system: Option<String>, stream: bool) -> (r: Self)
        ensures
            r.anthropic_version == anthropic_version,
            r.messages == messages,
            r.max_tokens == max_tokens,
            r.system == system,
            r.stream == stream,
    {
        CreateChatCompletionAnthropicRequest { anthropic_version, system, messages, max_tokens, stream }
    }
}

/// The view of an Anthropic message: role and blocks.
pub open spec fn message_view(m: AnthropicMessage) -> (Seq<char>, Seq<ContentView>) {
    (m.role@, contents_view(m.content@))
}

/// The messages and system prompt of a chat request, mapped in order:
/// user and assistant messages become messages (assistant messages without
/// content are skipped), the last system message becomes the system prompt,
/// and any other role is refused.
pub open spec fn messages_spec(msgs: Seq<ChatMessage>) -> Result<(Seq<(Seq<char>, Seq<ContentView>)>, Option<Seq<char>>), Seq<char>>
    decreases msgs.len(),
{
    if msgs.len() == 0 {
        Ok((Seq::empty(), None))
    } else {
        match messages_spec(msgs.drop_last()) {
            Err(m) => Err(m),
            Ok((ms, system)) => match msgs.last() {
                ChatMessage::User(c) => match user_content_spec(c) {
                    Err(m) => Err(m),
                    Ok(blocks) => Ok((ms.push(("user"@, blocks)), system)),
                },
                ChatMessage::System(c) => Ok((ms, Some(system_spec(c)))),
                ChatMessage::Assistant(None) => Ok((ms, system)),
                ChatMessage::Assistant(Some(c)) => match assistant_content_spec(c) {
                    Err(m) => Err(m),
                    Ok(blocks) => Ok((ms.push(("assistant"@, blocks)), system)),
                },
                ChatMessage::Other => Err("Anthropic message mapping only supports user/system/assistant roles"@),
            },
        }
    }
}

/// The token budget: the request's own, capped by the model's.
pub open spec fn capped_tokens(requested: Option<u32>, max_tokens: u32) -> u32 {
    match requested {
        Some(r) => if r < max_tokens {
            r
        } else {
            max_tokens
        },
        None => max_tokens,
    }
}

/// The Anthropic request's token budget never exceeds the model's, nor
/// the request's own when it gives one: it is the smaller of the two when
/// the request asks for a budget, and the model's otherwise.
pub proof fn law_token_budget_is_the_smaller(requested: Option<u32>, model_max: u32)
    ensures
        capped_tokens(requested, model_max) <= model_max,
        requested matches Some(q) ==> {
            &&& capped_tokens(requested, model_max) <= q
            &&& capped_tokens(requested, model_max) == q || capped_tokens(requested, model_max) == model_max
        },
        requested is None ==> capped_tokens(requested, model_max) == model_max,
{
}

/// The views of Anthropic messages.
pub open spec fn messages_view(v: Seq<AnthropicMessage>) -> Seq<(Seq<char>, Seq<ContentView>)> {
    v.map_values(|m: AnthropicMessage| message_view(m))
}

/// Maps a chat request to an Anthropic request.
pub fn map_open_ai_request_to_anthropic(request: ChatRequest, max_tokens: u32, stream: bool) -> (r: Result<CreateChatCompletionAnthropicRequest, ShaideError>)
    ensures
        match r {
            Ok(a) => {
                &&& messages_spec(request.messages@) == Ok::<(Seq<(Seq<char>, Seq<ContentView>)>, Option<Seq<char>>), Seq<char>>((messages_view(a.messages@), opt_view(a.system)))
                &&& a.anthropic_version@ == "vertex-2023-10-16"@
                &&& a.max_tokens == capped_tokens(request.max_completion_tokens, max_tokens)
                &&& a.stream == stream
            },
            Err(e) => e is BadRequest && messages_spec(request.messages@) == Err::<(Seq<(Seq<char>, Seq<ContentView>)>, Option<Seq<char>>), Seq<char>>(e->BadRequest_0@),
        },
        r matches Ok(a) ==> a.max_tokens <= max_tokens,
        r matches Ok(a) ==> (request.max_completion_tokens matches Some(q) ==> a.max_tokens <= q && (a.max_tokens == q
            || a.max_tokens == max_tokens)),
{
    proof {
        law_token_budget_is_the_smaller(request.max_completion_tokens, max_tokens);
    }
    let max_tokens = match request.max_completion_tokens {
        Some(requested) => if requested < max_tokens {
            requested
        } else {
            max_tokens
        },
        None => max_tokens,
    };
    let mut messages: Vec<AnthropicMessage> = Vec::new();
    let mut system: Option<String> = None;
    let mut i: usize = 0;
    proof {
        assert(request.messages@.take(0) =~= Seq::<ChatMessage>::empty());
        assert(messages_view(messages@) =~= Seq::<(Seq<char>, Seq<ContentView>)>::empty());
    }
    while i < request.messages.len()
        invariant
            i <= request.messages.len(),
            messages_spec(request.messages@.take(i as int)) == Ok::<(Seq<(Seq<char>, Seq<ContentView>)>, Option<Seq<char>>), Seq<char>>((messages_view(messages@), opt_view(system))),
        decreases request.messages.len() - i,
    {
        proof {
            assert(request.messages@.take(i + 1).drop_last() == request.messages@.take(i as int));
            assert(request.messages@.take(i + 1).last() == request.messages@[i as int]);
        }
        let ghost before = messages@;
        match &request.messages[i] {
            ChatMessage::User(content) => {
                let blocks = match map_open_ai_chat_completion_request_user_messsage_to_anthropic_message(content) {
                    Ok(b) => b,
                    Err(e) => {
                        proof {
                            lemma_messages_err(request.messages@, i + 1, request.messages@.len() as int);
                            assert(request.messages@.take(request.messages@.len() as int) == request.messages@);
                        }
                        return Err(e);
                    },
                };
                let m = AnthropicMessage::new(owned("user"), blocks);
                messages.push(m);
                proof {
                    assert(messages_view(messages@) =~= messages_view(before).push(message_view(m)));
                }
            },
            ChatMessage::System(content) => {
                system = Some(map_open_ai_system_request_to_anthropic(content));
            },
            ChatMessage::Assistant(None) => {},
            ChatMessage::Assistant(Some(content)) => {
                let blocks = match map_open_ai_chat_completion_request_assistant_to_anthropic_message(content) {
                    Ok(b) => b,
                    Err(e) => {
                        proof {
                            lemma_messages_err(request.messages@, i + 1, request.messages@.len() as int);
                            assert(request.messages@.take(request.messages@.len() as int) == request.messages@);
                        }
                        return Err(e);
                    },
                };
                let m = AnthropicMessage::new(owned("assistant"), blocks);
                messages.push(m);
                proof {
                    assert(messages_view(messages@) =~= messages_view(before).push(message_view(m)));
                }
            },
            ChatMessage::Other => {
                proof {
                    lemma_messages_err(request.messages@, i + 1, request.messages@.len() as int);
                    assert(request.messages@.take(request.messages@.len() as int) == request.messages@);
                }
                return Err(ShaideError::BadRequest(owned(
                    "Anthropic message mapping only supports user/system/assistant roles",
                )));
            },
        }
        i = i + 1;
    }
    proof {
        assert(request.messages@.take(request.messages.len() as int) == request.messages@);
    }
    Ok(CreateChatCompletionAnthropicRequest::new(owned("vertex-2023-10-16"), messages, max_tokens, system, stream))
}

/// The chunk an Anthropic event becomes: one choice when the event carries
/// text or a stop reason, usage when it carries the output token count;
/// `None` when it carries neither.
pub open spec fn anthropic_chunk_spec<L>(id: Seq<char>, response: AnthropicStreamCompletionResponse, input_tokens: u32, model: Seq<char>, r: Option<StreamChunk<L>>) -> bool {
    let content = match response.delta {
        Some(d) => opt_view(d.text),
        None => None,
    };
    let finish = match response.delta {
        Some(AnthropicDelta { stop_reason: Some(s), .. }) => Some(finish_reason_spec(s@)),
        _ => None,
    };
    let output = match response.usage {
        Some(u) => u.output_tokens,
        None => None,
    };
    let has_choice = content is Some || finish is Some;
    match r {
        None => !has_choice && output is None,
        Some(c) => {
            &&& has_choice || output is Some
            &&& c.id@ == id
            &&& c.created == 0
            &&& c.model@ == model
            &&& c.service_tier is None
            &&& c.system_fingerprint is None
            &&& c.object@ == "chat.completion.chunk"@
            &&& c.usage == (match output {
                Some(o) => Some(Usage { prompt_tokens: input_tokens, completion_tokens: o, total_tokens: wrapped_sum(input_tokens, o) }),
                None => None,
            })
            &&& if has_choice {
                &&& c.choices@.len() == 1
                &&& c.choices@[0].index == 0
                &&& opt_view(c.choices@[0].content) == content
                &&& c.choices@[0].finish_reason == finish
                &&& c.choices@[0].reasoning_content is None
                &&& c.choices@[0].refusal is None
                &&& c.choices@[0].role is None
                &&& c.choices@[0].function_call is None
                &&& c.choices@[0].tool_calls is None
                &&& c.choices@[0].logprobs is None
            } else {
                c.choices@.len() == 0
            }
        },
    }
}

/// `a + b` modulo 2^32.
pub open spec fn wrapped_sum(a: u32, b: u32) -> u32 {
    if a + b > u32::MAX {
        (a + b - 0x1_0000_0000) as u32
    } else {
        (a + b) as u32
    }
}

/// Maps an Anthropic event to a chat completion chunk (a total token count
/// beyond 32 bits wraps).
pub fn map_antrhropic_response_to_openai<L>(id: String, response: AnthropicStreamCompletionResponse, input_tokens: u32, model: &str) -> (r: Option<StreamChunk<L>>)
    ensures
        anthropic_chunk_spec(id@, response, input_tokens, model@, r),
{
    let content = response.text();
    let finish_reason = response.finish_reason();
    let has_choice = content.is_some() || finish_reason.is_some();
    let mut choices: Vec<ChoiceDelta<L>> = Vec::new();
    if has_choice {
        choices.push(ChoiceDelta {
            index: 0,
            content,
            reasoning_content: None,
            refusal: None,
            role: None,
            function_call: None,
            tool_calls: None,
            finish_reason,
            logprobs: None,
        });
    }
    let usage = match response.output_tokens() {
        Some(output_tokens) => Some(Usage {
            prompt_tokens: input_tokens,
            completion_tokens: output_tokens,
            total_tokens: input_tokens.wrapping_add(output_tokens),
        }),
        None => None,
    };
    if has_choice || usage.is_some() {
        Some(StreamChunk {
            id,
            choices,
            created: 0,
            model: owned(model),
            service_tier: None,
            system_fingerprint: None,
            object: owned("chat.completion.chunk"),
            usage,
        })
    } else {
        None
    }
}

/// What an Anthropic stream handler remembers between events.
pub struct AnthropicStreamState {
    pub message_id: Option<String>,
    pub input_tokens: u32,
}

/// An event of an upstream stream, as the handler sees it.
pub enum StreamInput<R> {
    /// The stream opened.
    Open,
    /// A message that parsed.
    Message(R),
    /// A message whose data is not the expected JSON, with the parser's
    /// complaint.
    Unparsable(String),
    /// The event source failed, with its description.
    Failure(String),
}

/// What a stream handler does with an event.
#[derive(Debug)]
pub enum StreamAction<L> {
    /// Nothing to forward.
    Nothing,
    /// Forward a chunk.
    Chunk(StreamChunk<L>),
    /// Forward the end marker.
    Done,
    /// Forward an error.
    Error(String),
}

/// A handler's answer to one event: what to forward, and whether the stream
/// is over.
pub struct StreamStep<L> {
    pub action: StreamAction<L>,
    pub stop: bool,
}

impl AnthropicStreamState {
    /// The state before the first event.
    pub fn new() -> (r: Self)
        ensures
            r.message_id is None,
            r.input_tokens == 0,
    {
        AnthropicStreamState { message_id: None, input_tokens: 0 }
    }

    /// Handles one event of an Anthropic stream: the latest input token count
    /// is remembered; the stop event ends the stream; until a message id is
    /// known nothing is forwarded; then each event that carries something is
    /// forwarded as a chunk under that id.
    pub fn handle<L>(&mut self, input: StreamInput<AnthropicStreamCompletionResponse>, model: &str) -> (r: StreamStep<L>)
        ensures
            match input {
                StreamInput::Open => r.action is Nothing && !r.stop && *final(self) == *old(self),
                StreamInput::Unparsable(m) => r.action matches StreamAction::Error(e) && e == m && !r.stop && *final(self) == *old(self),
                StreamInput::Failure(m) => r.action matches StreamAction::Error(e) && e == m && !r.stop && *final(self) == *old(self),
                StreamInput::Message(resp) => {
                    let tokens = match resp.message {
                        Some(AnthropicStreamMessage { usage: Some(AnthropicUsage { input_tokens: Some(t), .. }), .. }) => t,
                        _ => old(self).input_tokens,
                    };
                    &&& final(self).input_tokens == tokens
                    &&& if resp.event_type matches Some(t) && t@ == "message_stop"@ {
                        r.action is Done && r.stop && final(self).message_id == old(self).message_id
                    } else {
                        let id = match old(self).message_id {
                            Some(id) => Some(id@),
                            None => match resp.message {
                                Some(m) => opt_view(m.id),
                                None => None,
                            },
                        };
                        &&& !r.stop
                        &&& opt_view(final(self).message_id) == id
                        &&& match id {
                            None => r.action is Nothing,
                            Some(id) => r.action matches StreamAction::Chunk(c) && anthropic_chunk_spec(id, resp, tokens, model@, Some(c))
                                || r.action is Nothing && anthropic_chunk_spec::<L>(id, resp, tokens, model@, None),
                        }
                    }
                },
            },
    {
        match input {
            StreamInput::Open => StreamStep { action: StreamAction::Nothing, stop: false },
            StreamInput::Unparsable(m) => StreamStep { action: StreamAction::Error(m), stop: false },
            StreamInput::Failure(m) => StreamStep { action: StreamAction::Error(m), stop: false },
            StreamInput::Message(response) => {
                match response.input_tokens() {
                    Some(t) => self.input_tokens = t,
                    None => {},
                }
                if response.stream_ending() {
                    return StreamStep { action: StreamAction::Done, stop: true };
                }
                let id = match &self.message_id {
                    Some(id) => id.clone(),
                    None => match response.id() {
                        Some(id) => {
                            self.message_id = Some(id.clone());
                            id
                        },
                        None => return StreamStep { action: StreamAction::Nothing, stop: false },
                    },
                };
                match map_antrhropic_response_to_openai(id, response, self.input_tokens, model) {
                    Some(chunk) => StreamStep { action: StreamAction::Chunk(chunk), stop: false },
                    None => StreamStep { action: StreamAction::Nothing, stop: false },
                }
            },
        }
    }
}

} // verus!
