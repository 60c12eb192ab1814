use shaide::anthropic::StreamAction;
use shaide::chat_request::{AssistantContent, AssistantContentPart, ChatMessage, ChatRequest, SystemContent, UserContent, UserContentPart};
use shaide::error::ShaideError;
use shaide::vertex::{map_open_ai_request_to_vertex, vertex_stream_step, RawStreamEvent};

#[test]
fn chat_requests_become_text_turns() {
    let request = ChatRequest {
        model: "gemini".to_owned(),
        messages: vec![
            ChatMessage::System(SystemContent::Array(vec!["be ".to_owned(), "brief".to_owned()])),
            ChatMessage::User(UserContent::Array(vec![UserContentPart::Text("hi".to_owned())])),
            ChatMessage::Assistant(None),
            ChatMessage::Assistant(Some(AssistantContent::Text("hello".to_owned()))),
        ],
        max_completion_tokens: None,
    };
    let v = map_open_ai_request_to_vertex(request, 2048).unwrap();
    assert_eq!(v.model, "gemini");
    assert_eq!(v.max_output_tokens, 2048);
    let system = v.system_instruction.unwrap();
    assert_eq!(system.role, "model");
    assert_eq!(system.parts, vec!["be ", "brief"]);
    assert_eq!(v.contents.len(), 2);
    assert_eq!(v.contents[0].role, "user");
    assert_eq!(v.contents[0].parts, vec!["hi"]);
    assert_eq!(v.contents[1].role, "model");
}

#[test]
fn unsupported_content_is_refused() {
    let refuse = |messages| match map_open_ai_request_to_vertex(ChatRequest { model: "g".to_owned(), messages, max_completion_tokens: None }, 1) {
        Err(ShaideError::BadRequest(m)) => m,
        other => panic!("unexpected {other:?}"),
    };
    assert_eq!(
        refuse(vec![ChatMessage::User(UserContent::Array(vec![UserContentPart::ImageUrl("u".to_owned())]))]),
        "Vertex message mapping does not support image content"
    );
    assert_eq!(
        refuse(vec![ChatMessage::Assistant(Some(AssistantContent::Array(vec![AssistantContentPart::Refusal("no".to_owned())])))]),
        "Vertex message mapping does not support assistant refusals"
    );
    assert_eq!(refuse(vec![ChatMessage::Other]), "Vertex message mapping only supports user/system/assistant roles");
}

#[test]
fn large_budgets_wrap_as_the_conversion_does() {
    let request = ChatRequest { model: "g".to_owned(), messages: vec![], max_completion_tokens: None };
    assert_eq!(map_open_ai_request_to_vertex(request, u32::MAX).unwrap().max_output_tokens, -1);
}

#[test]
fn the_vertex_stream_only_understands_its_end_marker() {
    let step = vertex_stream_step::<u8>(RawStreamEvent::Message("[DONE]".to_owned()));
    assert!(matches!(step.action, StreamAction::Done) && step.stop);
    let step = vertex_stream_step::<u8>(RawStreamEvent::Message("{}".to_owned()));
    assert!(matches!(step.action, StreamAction::Error(m) if m == "Vertex stream message format is unsupported: {}"));
    assert!(step.stop);
    let step = vertex_stream_step::<u8>(RawStreamEvent::Failure("reset".to_owned()));
    assert!(matches!(step.action, StreamAction::Error(m) if m == "reset"));
    assert!(!step.stop);
    let step = vertex_stream_step::<u8>(RawStreamEvent::Open);
    assert!(matches!(step.action, StreamAction::Nothing) && !step.stop);
}
