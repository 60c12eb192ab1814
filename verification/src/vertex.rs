//! Gemini models on Vertex: chat requests mapped to a content generation
//! request of text parts, and the model's stream handled event by event.
use vstd::prelude::*;

use crate::anthropic::{StreamAction, StreamStep};
use crate::chat_request::{
    AssistantContent, AssistantContentPart, ChatMessage, ChatRequest, SystemContent, UserContent, UserContentPart,
};
use crate::error::ShaideError;
use crate::text::{concat2, eq_str, owned};

verus! {

/// A turn of a Vertex conversation: who speaks, and its text parts.
#[derive(Debug)]
pub struct VertexContent {
    pub role: String,
    pub parts: Vec<String>,
}

/// A Vertex content generation request.
#[derive(Debug)]
pub struct VertexRequest {
    pub model: String,
    pub max_output_tokens: i32,
    pub system_instruction: Option<VertexContent>,
    pub contents: Vec<VertexContent>,
}

/// The views of texts.
pub open spec fn texts_view(v: Seq<String>) -> Seq<Seq<char>> {
    v.map_values(|s: String| s@)
}

/// The view of a turn: role and parts.
pub open spec fn content_view(c: VertexContent) -> (Seq<char>, Seq<Seq<char>>) {
    (c.role@, texts_view(c.parts@))
}

/// The views of turns.
pub open spec fn contents_view(v: Seq<VertexContent>) -> Seq<(Seq<char>, Seq<Seq<char>>)> {
    v.map_values(|c: VertexContent| content_view(c))
}

/// The part for one part of a user message; only text is taken.
pub open spec fn user_part_spec(p: UserContentPart) -> Result<Seq<char>, Seq<char>> {
    match p {
        UserContentPart::Text(t) => Ok(t@),
        UserContentPart::ImageUrl(_) => Err("Vertex message mapping does not support image content"@),
        UserContentPart::InputAudio => Err("Vertex message mapping does not support audio input"@),
        UserContentPart::File => Err("Vertex message mapping does not support file input"@),
    }
}

/// The parts for the parts of a user message, or the first refusal.
pub open spec fn user_parts_spec(parts: Seq<UserContentPart>) -> Result<Seq<Seq<char>>, Seq<char>>
    decreases parts.len(),
{
    if parts.len() == 0 {
        Ok(Seq::empty())
    } else {
        match user_parts_spec(parts.drop_last()) {
            Err(m) => Err(m),
            Ok(prev) => match user_part_spec(parts.last()) {
                Err(m) => Err(m),
                Ok(p) => Ok(prev.push(p)),
            },
        }
    }
}

/// The parts for a user message.
pub open spec fn user_content_spec(c: UserContent) -> Result<Seq<Seq<char>>, Seq<char>> {
    match c {
        UserContent::Text(t) => Ok(seq![t@]),
        UserContent::Array(parts) => user_parts_spec(parts@),
    }
}

/// The part for one part of an assistant message; refusals are refused.
pub open spec fn assistant_part_spec(p: AssistantContentPart) -> Result<Seq<char>, Seq<char>> {
    match p {
        AssistantContentPart::Text(t) => Ok(t@),
        AssistantContentPart::Refusal(_) => Err("Vertex message mapping does not support assistant refusals"@),
    }
}

/// The parts for the parts of an assistant message, or the first refusal.
pub open spec fn assistant_parts_spec(parts: Seq<AssistantContentPart>) -> Result<Seq<Seq<char>>, Seq<char>>
    decreases parts.len(),
{
    if parts.len() == 0 {
        Ok(Seq::empty())
    } else {
        match assistant_parts_spec(parts.drop_last()) {
            Err(m) => Err(m),
            Ok(prev) => match assistant_part_spec(parts.last()) {
                Err(m) => Err(m),
                Ok(p) => Ok(prev.push(p)),
            },
        }
    }
}

/// The parts for an assistant message.
pub open spec fn assistant_content_spec(c: AssistantContent) -> Result<Seq<Seq<char>>, Seq<char>> {
    match c {
        AssistantContent::Text(t) => Ok(seq![t@]),
        AssistantContent::Array(parts) => assistant_parts_spec(parts@),
    }
}

/// The parts of a system message.
pub open spec fn system_spec(c: SystemContent) -> Seq<Seq<char>> {
    match c {
        SystemContent::Text(t) => seq![t@],
        SystemContent::Array(parts) => texts_view(parts@),
    }
}

/// A conversation mapped in order: user messages become "user" turns,
/// assistant messages with content become "model" turns, the last system
/// message becomes the "model" system instruction, and any other role is
/// refused.
pub open spec fn messages_spec(msgs: Seq<ChatMessage>) -> Result<
    (Seq<(Seq<char>, Seq<Seq<char>>)>, Option<(Seq<char>, Seq<Seq<char>>)>),
    Seq<char>,
>
    decreases msgs.len(),
{
    if msgs.len() == 0 {
        Ok((Seq::empty(), None))
    } else {
        match messages_spec(msgs.drop_last()) {
            Err(m) => Err(m),
            Ok((turns, system)) => match msgs.last() {
                ChatMessage::User(c) => match user_content_spec(c) {
                    Err(m) => Err(m),
                    Ok(parts) => Ok((turns.push(("user"@, parts)), system)),
                },
                ChatMessage::System(c) => Ok((turns, Some(("model"@, system_spec(c))))),
                ChatMessage::Assistant(None) => Ok((turns, system)),
                ChatMessage::Assistant(Some(c)) => match assistant_content_spec(c) {
                    Err(m) => Err(m),
                    Ok(parts) => Ok((turns.push(("model"@, parts)), system)),
                },
                ChatMessage::Other => Err("Vertex message mapping only supports user/system/assistant roles"@),
            },
        }
    }
}

proof fn lemma_user_parts_err(s: Seq<UserContentPart>, j: int, k: int)
    requires
        0 <= j <= k <= s.len(),
        user_parts_spec(s.take(j)) is Err,
    ensures
        user_parts_spec(s.take(k)) == user_parts_spec(s.take(j)),
    decreases k - j,
{
    if k > j {
        lemma_user_parts_err(s, j, k - 1);
        assert(s.take(k).drop_last() == s.take(k - 1));
    }
}

proof fn lemma_assistant_parts_err(s: Seq<AssistantContentPart>, j: int, k: int)
    requires
        0 <= j <= k <= s.len(),
        assistant_parts_spec(s.take(j)) is Err,
    ensures
        assistant_parts_spec(s.take(k)) == assistant_parts_spec(s.take(j)),
    decreases k - j,
{
    if k > j {
        lemma_assistant_parts_err(s, j, k - 1);
        assert(s.take(k).drop_last() == s.take(k - 1));
    }
}

proof fn lemma_messages_err(s: Seq<ChatMessage>, j: int, k: int)
    requires
        0 <= j <= k <= s.len(),
        messages_spec(s.take(j)) is Err,
    ensures
        messages_spec(s.take(k)) == messages_spec(s.take(j)),
    decreases k - j,
{
    if k > j {
        lemma_messages_err(s, j, k - 1);
        assert(s.take(k).drop_last() == s.take(k - 1));
    }
}

/// Maps the content of a user message to text parts.
pub fn map_open_ai_chat_completion_request_user_messsage_to_part(request: &UserContent) -> (r: Result<Vec<String>, ShaideError>)
    ensures
        match r {
            Ok(v) => user_content_spec(*request) == Ok::<Seq<Seq<char>>, Seq<char>>(texts_view(v@)),
            Err(e) => e is BadRequest && user_content_spec(*request) == Err::<Seq<Seq<char>>, Seq<char>>(e->BadRequest_0@),
        },
{
    match request {
        UserContent::Text(text) => {
            let mut v: Vec<String> = Vec::new();
            v.push(text.clone());
            proof {
                assert(texts_view(v@) =~= seq![text@]);
            }
            Ok(v)
        },
        UserContent::Array(parts) => {
            let mut v: Vec<String> = Vec::new();
            let mut i: usize = 0;
            proof {
                assert(parts@.take(0) =~= Seq::<UserContentPart>::empty());
                assert(texts_view(v@) =~= Seq::<Seq<char>>::empty());
            }
            while i < parts.len()
                invariant
                    i <= parts.len(),
                    user_parts_spec(parts@.take(i as int)) == Ok::<Seq<Seq<char>>, Seq<char>>(texts_view(v@)),
                    user_content_spec(*request) == user_parts_spec(parts@),
                decreases parts.len() - i,
            {
                proof {
                    assert(parts@.take(i + 1).drop_last() == parts@.take(i as int));
                    assert(parts@.take(i + 1).last() == parts@[i as int]);
                }
                let message = match &parts[i] {
                    UserContentPart::Text(t) => {
                        let ghost before = v@;
                        v.push(t.clone());
                        proof {
                            assert(texts_view(v@) =~= texts_view(before).push(t@));
                        }
                        i = i + 1;
                        continue;
                    },
                    UserContentPart::ImageUrl(_) => "Vertex message mapping does not support image content",
                    UserContentPart::InputAudio => "Vertex message mapping does not support audio input",
                    UserContentPart::File => "Vertex message mapping does not support file input",
                };
                proof {
                    lemma_user_parts_err(parts@, i + 1, parts@.len() as int);
                    assert(parts@.take(parts@.len() as int) == parts@);
                }
                return Err(ShaideError::BadRequest(owned(message)));
            }
            proof {
                assert(parts@.take(parts.len() as int) == parts@);
            }
            Ok(v)
        },
    }
}

/// Maps the content of an assistant message to text parts.
pub fn map_open_ai_chat_completion_request_assistant_messsage_to_part(request: &AssistantContent) -> (r: Result<Vec<String>, ShaideError>)
    ensures
        match r {
            Ok(v) => assistant_content_spec(*request) == Ok::<Seq<Seq<char>>, Seq<char>>(texts_view(v@)),
            Err(e) => e is BadRequest && assistant_content_spec(*request) == Err::<Seq<Seq<char>>, Seq<char>>(
                e->BadRequest_0@,
            ),
        },
{
    match request {
        AssistantContent::Text(text) => {
            let mut v: Vec<String> = Vec::new();
            v.push(text.clone());
            proof {
                assert(texts_view(v@) =~= seq![text@]);
            }
            Ok(v)
        },
        AssistantContent::Array(parts) => {
            let mut v: Vec<String> = Vec::new();
            let mut i: usize = 0;
            proof {
                assert(parts@.take(0) =~= Seq::<AssistantContentPart>::empty());
                assert(texts_view(v@) =~= Seq::<Seq<char>>::empty());
            }
            while i < parts.len()
                invariant
                    i <= parts.len(),
                    assistant_parts_spec(parts@.take(i as int)) == Ok::<Seq<Seq<char>>, Seq<char>>(texts_view(v@)),
                    assistant_content_spec(*request) == assistant_parts_spec(parts@),
                decreases parts.len() - i,
            {
                proof {
                    assert(parts@.take(i + 1).drop_last() == parts@.take(i as int));
                    assert(parts@.take(i + 1).last() == parts@[i as int]);
                }
                match &parts[i] {
                    AssistantContentPart::Text(t) => {
                        let ghost before = v@;
                        v.push(t.clone());
                        proof {
                            assert(texts_view(v@) =~= texts_view(before).push(t@));
                        }
                    },
                    AssistantContentPart::Refusal(_) => {
                        proof {
                            lemma_assistant_parts_err(parts@, i + 1, parts@.len() as int);
                            assert(parts@.take(parts@.len() as int) == parts@);
                        }
                        return Err(ShaideError::BadRequest(owned(
                            "Vertex message mapping does not support assistant refusals",
                        )));
                    },
                }
                i = i + 1;
            }
            proof {
                assert(parts@.take(parts.len() as int) == parts@);
            }
            Ok(v)
        },
    }
}

/// The texts of a system message, one part each.
fn system_parts(request: &SystemContent) -> (r: Vec<String>)
    ensures
        texts_view(r@) == system_spec(*request),
{
    match request {
        SystemContent::Text(t) => {
            let mut v: Vec<String> = Vec::new();
            v.push(t.clone());
            proof {
                assert(texts_view(v@) =~= seq![t@]);
            }
            v
        },
        SystemContent::Array(texts) => {
            let mut v: Vec<String> = Vec::new();
            let mut i: usize = 0;
            while i < texts.len()
                invariant
                    i <= texts.len(),
                    texts_view(v@) == texts_view(texts@.take(i as int)),
                decreases texts.len() - i,
            {
                let ghost before = v@;
                v.push(texts[i].clone());
                proof {
                    assert(texts_view(v@) =~= texts_view(before).push(texts@[i as int]@));
                    assert(texts_view(texts@.take(i + 1)) =~= texts_view(texts@.take(i as int)).push(
                        texts@[i as int]@,
                    ));
                }
                i = i + 1;
            }
            proof {
                assert(texts@.take(texts.len() as int) == texts@);
            }
            v
        },
    }
}

/// The view of an optional turn.
pub open spec fn opt_content_view(c: Option<VertexContent>) -> Option<(Seq<char>, Seq<Seq<char>>)> {
    match c {
        Some(c) => Some(content_view(c)),
        None => None,
    }
}

/// Maps a chat request to a Vertex request. The model's output budget is
/// `max_tokens`, read as a signed 32-bit number (as the conversion does).
pub fn map_open_ai_request_to_vertex(request: ChatRequest, max_tokens: u32) -> (r: Result<VertexRequest, ShaideError>)
    ensures
        match r {
            Ok(v) => {
                &&& messages_spec(request.messages@) == Ok::<
                    (Seq<(Seq<char>, Seq<Seq<char>>)>, Option<(Seq<char>, Seq<Seq<char>>)>),
                    Seq<char>,
                >((contents_view(v.contents@), opt_content_view(v.system_instruction)))
                &&& v.model@ == request.model@
                &&& v.max_output_tokens == max_tokens as i32
            },
            Err(e) => e is BadRequest && messages_spec(request.messages@) == Err::<
                (Seq<(Seq<char>, Seq<Seq<char>>)>, Option<(Seq<char>, Seq<Seq<char>>)>),
                Seq<char>,
            >(e->BadRequest_0@),
        },
{
    let max_output_tokens: i32 = #[verifier::truncate] (max_tokens as i32);
    let mut contents: Vec<VertexContent> = Vec::new();
    let mut system: Option<VertexContent> = None;
    let mut i: usize = 0;
    proof {
        assert(request.messages@.take(0) =~= Seq::<ChatMessage>::empty());
        assert(contents_view(contents@) =~= Seq::<(Seq<char>, Seq<Seq<char>>)>::empty());
    }
    while i < request.messages.len()
        invariant
            i <= request.messages.len(),
            messages_spec(request.messages@.take(i as int)) == Ok::<
                (Seq<(Seq<char>, Seq<Seq<char>>)>, Option<(Seq<char>, Seq<Seq<char>>)>),
                Seq<char>,
            >((contents_view(contents@), opt_content_view(system))),
        decreases request.messages.len() - i,
    {
        proof {
            assert(request.messages@.take(i + 1).drop_last() == request.messages@.take(i as int));
            assert(request.messages@.take(i + 1).last() == request.messages@[i as int]);
        }
        let ghost before = contents@;
        match &request.messages[i] {
            ChatMessage::User(content) => {
                let parts = match map_open_ai_chat_completion_request_user_messsage_to_part(content) {
                    Ok(p) => p,
                    Err(e) => {
                        proof {
                            lemma_messages_err(request.messages@, i + 1, request.messages@.len() as int);
                            assert(request.messages@.take(request.messages@.len() as int) == request.messages@);
                        }
                        return Err(e);
                    },
                };
                let c = VertexContent { role: owned("user"), parts };
                contents.push(c);
                proof {
                    assert(contents_view(contents@) =~= contents_view(before).push(content_view(c)));
                }
            },
            ChatMessage::System(content) => {
                system = Some(VertexContent { role: owned("model"), parts: system_parts(content) });
            },
            ChatMessage::Assistant(None) => {},
            ChatMessage::Assistant(Some(content)) => {
                let parts = match map_open_ai_chat_completion_request_assistant_messsage_to_part(content) {
                    Ok(p) => p,
                    Err(e) => {
                        proof {
                            lemma_messages_err(request.messages@, i + 1, request.messages@.len() as int);
                            assert(request.messages@.take(request.messages@.len() as int) == request.messages@);
                        }
                        return Err(e);
                    },
                };
                let c = VertexContent { role: owned("model"), parts };
                contents.push(c);
                proof {
                    assert(contents_view(contents@) =~= contents_view(before).push(content_view(c)));
                }
            },
            ChatMessage::Other => {
                proof {
                    lemma_messages_err(request.messages@, i + 1, request.messages@.len() as int);
                    assert(request.messages@.take(request.messages@.len() as int) == request.messages@);
                }
                return Err(ShaideError::BadRequest(owned(
                    "Vertex message mapping only supports user/system/assistant roles",
                )));
            },
        }
        i = i + 1;
    }
    proof {
        assert(request.messages@.take(request.messages.len() as int) == request.messages@);
    }
    Ok(VertexRequest { model: request.model, max_output_tokens, system_instruction: system, contents })
}

/// An event of an upstream stream whose messages are read as raw text.
pub enum RawStreamEvent {
    /// The stream opened.
    Open,
    /// A message, with its data.
    Message(String),
    /// The event source failed, with its description.
    Failure(String),
}

/// Handles one event of a Vertex stream: failures are forwarded and the
/// stream goes on; the end marker ends it; any other message is reported as
/// unsupported and ends it.
pub fn vertex_stream_step<L>(event: RawStreamEvent) -> (r: StreamStep<L>)
    ensures
        match event {
            RawStreamEvent::Open => r.action is Nothing && !r.stop,
            RawStreamEvent::Failure(m) => r.action == StreamAction::<L>::Error(m) && !r.stop,
            RawStreamEvent::Message(data) => if data@ == "[DONE]"@ {
                r.action is Done && r.stop
            } else {
                r.action matches StreamAction::Error(e) && e@ == "Vertex stream message format is unsupported: "@
                    + data@ && r.stop
            },
        },
{
    match event {
        RawStreamEvent::Open => StreamStep { action: StreamAction::Nothing, stop: false },
        RawStreamEvent::Failure(m) => StreamStep { action: StreamAction::Error(m), stop: false },
        RawStreamEvent::Message(data) => {
            if eq_str(data.as_str(), "[DONE]") {
                StreamStep { action: StreamAction::Done, stop: true }
            } else {
                StreamStep {
                    action: StreamAction::Error(concat2("Vertex stream message format is unsupported: ", data.as_str())),
                    stop: true,
                }
            }
        },
    }
}

} // verus!
