use shaide::anthropic::{
    map_antrhropic_response_to_openai, map_open_ai_chat_completion_request_user_messsage_to_anthropic_message,
    map_open_ai_request_to_anthropic, map_open_ai_system_request_to_anthropic, AnthropicDelta,
    AnthropicImageSource, AnthropicMessageContent, AnthropicStreamCompletionResponse, AnthropicStreamState,
    StreamAction, StreamInput,
};
use shaide::chat_collect::FinishReason;
use shaide::chat_request::{AssistantContent, ChatMessage, ChatRequest, SystemContent, UserContent, UserContentPart};
use shaide::error::ShaideError;

fn image_then_text(url: &str, text: &str) -> UserContent {
    UserContent::Array(vec![UserContentPart::ImageUrl(url.to_owned()), UserContentPart::Text(text.to_owned())])
}

fn assert_base64_image_then_text(mapped: &[AnthropicMessageContent], media: &str, data: &str, text: &str) {
    assert_eq!(mapped.len(), 2);
    match &mapped[0] {
        AnthropicMessageContent::Image { source: AnthropicImageSource::Base64 { media_type, data: d } } => {
            assert_eq!(media_type, media);
            assert_eq!(d, data);
        },
        other => panic!("unexpected block {other:?}"),
    }
    match &mapped[1] {
        AnthropicMessageContent::Text { text: t } => assert_eq!(t, text),
        other => panic!("unexpected block {other:?}"),
    }
}

#[test]
fn map_user_message_supports_image_url_content_for_anthropic() {
    let content = image_then_text("https://example.com/image.png", "What is in the above image?");

    let mapped = map_open_ai_chat_completion_request_user_messsage_to_anthropic_message(&content)
        .expect("mapping should succeed");

    assert_eq!(mapped.len(), 2);
    match &mapped[0] {
        AnthropicMessageContent::Image { source: AnthropicImageSource::Url { url } } => {
            assert_eq!(url, "https://example.com/image.png")
        },
        other => panic!("unexpected block {other:?}"),
    }
    match &mapped[1] {
        AnthropicMessageContent::Text { text } => assert_eq!(text, "What is in the above image?"),
        other => panic!("unexpected block {other:?}"),
    }
}

#[test]
fn map_user_message_maps_data_url_image_to_base64_source_for_anthropic() {
    let content = image_then_text("data:image/png;base64,aGVsbG8=", "What is in this image?");

    let mapped = map_open_ai_chat_completion_request_user_messsage_to_anthropic_message(&content)
        .expect("mapping should succeed");

    assert_base64_image_then_text(&mapped, "image/png", "aGVsbG8=", "What is in this image?");
}

#[test]
fn map_user_message_maps_parameterized_data_url_image_to_base64_source_for_anthropic() {
    let content = image_then_text("data:image/png;charset=utf-8;base64,aGVsbG8=", "What is in this image?");

    let mapped = map_open_ai_chat_completion_request_user_messsage_to_anthropic_message(&content)
        .expect("mapping should succeed");

    assert_base64_image_then_text(&mapped, "image/png", "aGVsbG8=", "What is in this image?");
}

#[test]
fn audio_input_is_refused_for_anthropic() {
    let content = UserContent::Array(vec![UserContentPart::Text("a".to_owned()), UserContentPart::InputAudio]);
    match map_open_ai_chat_completion_request_user_messsage_to_anthropic_message(&content) {
        Err(ShaideError::BadRequest(m)) => assert_eq!(m, "Anthropic message mapping does not support audio input"),
        other => panic!("unexpected {other:?}"),
    }
}

#[test]
fn system_parts_are_joined_without_separator() {
    let system = SystemContent::Array(vec!["You are ".to_owned(), "helpful.".to_owned()]);
    assert_eq!(map_open_ai_system_request_to_anthropic(&system), "You are helpful.");
}

#[test]
fn anthropic_request_keeps_roles_caps_tokens_and_takes_the_last_system_prompt() {
    let request = ChatRequest {
        model: "sonnet".to_owned(),
        messages: vec![
            ChatMessage::System(SystemContent::Text("first".to_owned())),
            ChatMessage::User(UserContent::Text("hi".to_owned())),
            ChatMessage::Assistant(None),
            ChatMessage::Assistant(Some(AssistantContent::Text("hello".to_owned()))),
            ChatMessage::System(SystemContent::Text("second".to_owned())),
        ],
        max_completion_tokens: Some(5000),
    };
    let mapped = map_open_ai_request_to_anthropic(request, 1024, true).unwrap();
    assert_eq!(mapped.anthropic_version, "vertex-2023-10-16");
    assert_eq!(mapped.max_tokens, 1024);
    assert!(mapped.stream);
    assert_eq!(mapped.system.as_deref(), Some("second"));
    assert_eq!(mapped.messages.len(), 2);
    assert_eq!(mapped.messages[0].role, "user");
    assert_eq!(mapped.messages[1].role, "assistant");

    let refused = ChatRequest { model: "sonnet".to_owned(), messages: vec![ChatMessage::Other], max_completion_tokens: None };
    assert!(matches!(map_open_ai_request_to_anthropic(refused, 10, false), Err(ShaideError::BadRequest(_))));
}

fn text_event(text: &str) -> AnthropicStreamCompletionResponse {
    AnthropicStreamCompletionResponse {
        event_type: Some("content_block_delta".to_owned()),
        index: Some(0),
        message: None,
        delta: Some(AnthropicDelta { delta_type: Some("text_delta".to_owned()), text: Some(text.to_owned()), stop_reason: None }),
        usage: None,
    }
}

#[test]
fn anthropic_text_event_becomes_one_choice_under_the_given_id() {
    let chunk = map_antrhropic_response_to_openai::<u8>("msg_1".to_owned(), text_event("Hel"), 7, "sonnet").unwrap();
    assert_eq!(chunk.id, "msg_1");
    assert_eq!(chunk.model, "sonnet");
    assert_eq!(chunk.object, "chat.completion.chunk");
    assert_eq!(chunk.choices.len(), 1);
    assert_eq!(chunk.choices[0].content.as_deref(), Some("Hel"));
    assert!(chunk.usage.is_none());
}

#[test]
fn anthropic_stream_waits_for_a_message_id_and_ends_on_stop() {
    let mut state = AnthropicStreamState::new();
    let step = state.handle::<u8>(StreamInput::Message(text_event("x")), "sonnet");
    assert!(matches!(step.action, StreamAction::Nothing));
    assert!(!step.stop);
    let stop = AnthropicStreamCompletionResponse {
        event_type: Some("message_stop".to_owned()),
        index: None,
        message: None,
        delta: None,
        usage: None,
    };
    let step = state.handle::<u8>(StreamInput::Message(stop), "sonnet");
    assert!(matches!(step.action, StreamAction::Done));
    assert!(step.stop);
}

#[test]
fn anthropic_stop_reasons_map_to_finish_reasons() {
    let with_stop = |reason: &str| AnthropicStreamCompletionResponse {
        event_type: Some("message_delta".to_owned()),
        index: None,
        message: None,
        delta: Some(AnthropicDelta { delta_type: None, text: None, stop_reason: Some(reason.to_owned()) }),
        usage: None,
    };
    assert_eq!(with_stop("max_tokens").finish_reason(), Some(FinishReason::Length));
    assert_eq!(with_stop("tool_use").finish_reason(), Some(FinishReason::ToolCalls));
    assert_eq!(with_stop("refusal").finish_reason(), Some(FinishReason::ContentFilter));
    assert_eq!(with_stop("end_turn").finish_reason(), Some(FinishReason::Stop));
}
