use shaide::anthropic::StreamAction;
use shaide::openai_stream::{map_provider_chunk, openai_stream_step, OpenAiStreamEvent, ProviderChoiceDelta, ProviderChunk, ProviderUsage};

fn provider_delta(reasoning_content: Option<&str>, reasoning: Option<&str>) -> ProviderChoiceDelta<u8> {
    ProviderChoiceDelta {
        index: 0,
        content: Some("c".to_owned()),
        reasoning_content: reasoning_content.map(str::to_owned),
        reasoning: reasoning.map(str::to_owned),
        refusal: None,
        role: None,
        function_call: None,
        tool_calls: None,
        finish_reason: None,
        logprobs: None,
    }
}

fn provider_chunk(usage: Option<ProviderUsage>, choices: Vec<ProviderChoiceDelta<u8>>) -> ProviderChunk<u8> {
    ProviderChunk {
        id: "id".to_owned(),
        created: 1,
        model: "m".to_owned(),
        service_tier: None,
        system_fingerprint: Some("fp".to_owned()),
        object: "chat.completion.chunk".to_owned(),
        usage,
        choices,
    }
}

#[test]
fn reasoning_is_read_from_either_field() {
    let c = map_provider_chunk(provider_chunk(
        None,
        vec![provider_delta(Some("a"), Some("b")), provider_delta(None, Some("b")), provider_delta(None, None)],
    ));
    assert_eq!(c.choices[0].reasoning_content.as_deref(), Some("a"));
    assert_eq!(c.choices[1].reasoning_content.as_deref(), Some("b"));
    assert_eq!(c.choices[2].reasoning_content, None);
    assert_eq!(c.choices[0].content.as_deref(), Some("c"));
    assert_eq!(c.system_fingerprint.as_deref(), Some("fp"));
}

#[test]
fn usage_is_kept_only_when_complete() {
    let full = ProviderUsage { prompt_tokens: Some(1), completion_tokens: Some(2), total_tokens: Some(3) };
    let c = map_provider_chunk(provider_chunk(Some(full), vec![]));
    assert_eq!(c.usage.map(|u| (u.prompt_tokens, u.completion_tokens, u.total_tokens)), Some((1, 2, 3)));
    let partial = ProviderUsage { prompt_tokens: Some(1), completion_tokens: None, total_tokens: Some(3) };
    assert!(map_provider_chunk(provider_chunk(Some(partial), vec![])).usage.is_none());
}

#[test]
fn the_end_marker_wins_over_parsing() {
    let step = openai_stream_step::<u8>(OpenAiStreamEvent::Message { data: "[DONE]".to_owned(), parsed: Err("not json".to_owned()) });
    assert!(matches!(step.action, StreamAction::Done) && step.stop);
    let step = openai_stream_step::<u8>(OpenAiStreamEvent::Message { data: "x".to_owned(), parsed: Err("bad".to_owned()) });
    assert!(matches!(step.action, StreamAction::Error(m) if m == "bad"));
    assert!(!step.stop);
    let step = openai_stream_step(OpenAiStreamEvent::Message { data: "{..}".to_owned(), parsed: Ok(provider_chunk(None, vec![])) });
    assert!(matches!(step.action, StreamAction::Chunk(c) if c.id == "id"));
    assert!(!step.stop);
}
