use shaide::chat_collect::{
    append_fragment, append_items, collect_chat_completion, ChoiceDelta, FinishReason, FunctionCallDelta, Role,
    StreamChunk, ToolCallDelta, Usage,
};
use shaide::chat_sse::{forward_stream_event, ProviderStreamEvent, SseFrame};
use shaide::error::ShaideError;

fn delta(index: u32, content: Option<&str>, finish: Option<FinishReason>) -> ChoiceDelta<u8> {
    ChoiceDelta {
        index,
        content: content.map(str::to_owned),
        reasoning_content: None,
        refusal: None,
        role: None,
        function_call: None,
        tool_calls: None,
        finish_reason: finish,
        logprobs: None,
    }
}

fn chunk(choices: Vec<ChoiceDelta<u8>>, usage: Option<Usage>) -> StreamChunk<u8> {
    StreamChunk {
        id: "chatcmpl-1".to_owned(),
        created: 42,
        model: "provider-model".to_owned(),
        service_tier: None,
        system_fingerprint: None,
        object: "chat.completion.chunk".to_owned(),
        usage,
        choices,
    }
}

fn usage() -> Usage {
    Usage { prompt_tokens: 3, completion_tokens: 4, total_tokens: 7 }
}

#[test]
fn fragments_are_joined_in_arrival_order_per_choice() {
    let chunks = vec![
        chunk(vec![delta(0, Some("Hel"), None), delta(1, Some("Bon"), None)], None),
        chunk(vec![delta(1, Some("jour"), Some(FinishReason::Stop))], None),
        chunk(vec![delta(0, Some("lo"), Some(FinishReason::Length))], Some(usage())),
    ];
    let collected = collect_chat_completion(chunks, true, "requested".to_owned()).unwrap();
    assert_eq!(collected.id, "chatcmpl-1");
    assert_eq!(collected.object, "chat.completion");
    assert_eq!(collected.choices.len(), 2);
    assert_eq!(collected.choices[0].index, 0);
    assert_eq!(collected.choices[0].message.content.as_deref(), Some("Hello"));
    assert_eq!(collected.choices[0].finish_reason, Some(FinishReason::Length));
    assert_eq!(collected.choices[1].message.content.as_deref(), Some("Bonjour"));
    assert_eq!(collected.usage, Some(usage()));
}

#[test]
fn incomplete_streams_are_refused_in_order() {
    let err = |chunks, done| match collect_chat_completion::<u8>(chunks, done, "m".to_owned()) {
        Err(ShaideError::InternalServerError(m)) => m,
        other => panic!("unexpected {other:?}"),
    };
    assert_eq!(err(vec![], false), "Provider chat stream ended before its completion marker");
    assert_eq!(err(vec![], true), "Provider returned a completed chat stream without choices");
    assert_eq!(
        err(vec![chunk(vec![delta(0, Some("x"), None)], Some(usage()))], true),
        "Provider chat stream ended before every choice had a finish reason"
    );
    assert_eq!(
        err(vec![chunk(vec![delta(0, Some("x"), Some(FinishReason::Stop))], None)], true),
        "Provider chat stream ended without token usage"
    );
}

#[test]
fn tool_calls_are_gathered_by_index() {
    let mut d = delta(0, None, Some(FinishReason::ToolCalls));
    d.role = Some(Role::Assistant);
    d.tool_calls = Some(vec![
        ToolCallDelta {
            index: 1,
            id: Some("call_b".to_owned()),
            function: Some(FunctionCallDelta { name: Some("second".to_owned()), arguments: Some("{}".to_owned()) }),
        },
        ToolCallDelta {
            index: 0,
            id: Some("call_a".to_owned()),
            function: Some(FunctionCallDelta { name: Some("first".to_owned()), arguments: Some("{\"a\":".to_owned()) }),
        },
    ]);
    let mut more = delta(0, None, None);
    more.tool_calls = Some(vec![ToolCallDelta {
        index: 0,
        id: None,
        function: Some(FunctionCallDelta { name: None, arguments: Some("1}".to_owned()) }),
    }]);
    let collected =
        collect_chat_completion(vec![chunk(vec![d], None), chunk(vec![more], Some(usage()))], true, "m".to_owned())
            .unwrap();
    let calls = collected.choices[0].message.tool_calls.as_ref().unwrap();
    assert_eq!(calls.len(), 2);
    assert_eq!(calls[0].id, "call_a");
    assert_eq!(calls[0].function.name, "first");
    assert_eq!(calls[0].function.arguments, "{\"a\":1}");
    assert_eq!(calls[1].id, "call_b");
    assert_eq!(collected.choices[0].message.role, Role::Assistant);
}

#[test]
fn fragments_and_items_append() {
    let mut t: Option<String> = None;
    append_fragment(&mut t, None);
    assert_eq!(t, None);
    append_fragment(&mut t, Some("a".to_owned()));
    append_fragment(&mut t, Some("b".to_owned()));
    assert_eq!(t.as_deref(), Some("ab"));
    let mut v: Option<Vec<u8>> = None;
    append_items(&mut v, Some(vec![1]));
    append_items(&mut v, None);
    append_items(&mut v, Some(vec![2, 3]));
    assert_eq!(v, Some(vec![1, 2, 3]));
}

#[test]
fn stream_failures_are_reported_before_the_end_marker() {
    let (frames, stop) = forward_stream_event::<u8>(ProviderStreamEvent::Failed("upstream broke".to_owned()));
    assert!(stop);
    assert_eq!(frames.len(), 2);
    match &frames[0] {
        SseFrame::Error(e) => {
            assert_eq!(e.error.message, "upstream broke");
            assert_eq!(e.error.error_type, "server_error");
            assert_eq!(e.error.code.as_deref(), Some("provider_stream_error"));
            assert_eq!(e.message.as_deref(), Some("upstream broke"));
        },
        _ => panic!("expected an error frame"),
    }
    assert!(matches!(frames[1], SseFrame::Done));
    let (frames, stop) = forward_stream_event::<u8>(ProviderStreamEvent::Closed);
    assert!(stop);
    match &frames[0] {
        SseFrame::ClosedEarly { message, error_type } => {
            assert_eq!(message, "Provider chat stream closed before its completion marker");
            assert_eq!(error_type, "provider_error");
        },
        _ => panic!("expected the early-close frame"),
    }
    let (frames, stop) = forward_stream_event(ProviderStreamEvent::Chunk(chunk(vec![], None)));
    assert!(!stop);
    assert!(matches!(frames[0], SseFrame::Chunk(_)));
    let (frames, stop) = forward_stream_event::<u8>(ProviderStreamEvent::Done);
    assert!(stop && frames.len() == 1);
}
